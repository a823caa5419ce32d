//! The library's own model of a parsed reply document: a tree of named
//! sections and plain values. Numbers that fit a signed 64-bit integer
//! are held as integers; any other number keeps its textual form.

use vstd::prelude::*;

verus! {

/// One node of a reply document.
#[derive(Debug)]
pub enum JsonNode {
    /// The JSON null value.
    Null,
    /// A JSON boolean.
    Bool(bool),
    /// A JSON number that fits a signed 64-bit integer.
    Int(i64),
    /// Any other JSON number, kept as its source text.
    Num(String),
    /// A JSON string.
    Text(String),
    /// A JSON array.
    Arr(Vec<JsonNode>),
    /// A JSON object: named members as the parse yields them
    /// (serde_json's default map hands them out key-sorted); lookup
    /// takes the first match.
    Obj(Vec<JsonMember>),
}

/// One named member of a JSON object.
#[derive(Debug)]
pub struct JsonMember {
    /// The member's name.
    pub name: String,
    /// The member's value.
    pub value: JsonNode,
}

/// The mathematical value of a node.
pub enum JsonVal {
    Null,
    Bool(bool),
    Int(int),
    Num(Seq<char>),
    Text(Seq<char>),
    Arr(Seq<JsonVal>),
    Obj(Seq<(Seq<char>, JsonVal)>),
}

impl JsonNode {
    /// The mathematical value of this node.
    pub open spec fn deep(self) -> JsonVal
        decreases self,
    {
        match self {
            JsonNode::Null => JsonVal::Null,
            JsonNode::Bool(b) => JsonVal::Bool(b),
            JsonNode::Int(i) => JsonVal::Int(i as int),
            JsonNode::Num(s) => JsonVal::Num(s@),
            JsonNode::Text(s) => JsonVal::Text(s@),
            JsonNode::Arr(v) => JsonVal::Arr(deep_elems(v@)),
            JsonNode::Obj(v) => JsonVal::Obj(deep_members(v@)),
        }
    }
}

/// The mathematical values of a sequence of nodes.
pub open spec fn deep_elems(s: Seq<JsonNode>) -> Seq<JsonVal>
    decreases s,
{
    if s.len() == 0 {
        Seq::empty()
    } else {
        seq![s[0].deep()].add(deep_elems(s.skip(1)))
    }
}

/// The mathematical values of a sequence of object members.
pub open spec fn deep_members(s: Seq<JsonMember>) -> Seq<(Seq<char>, JsonVal)>
    decreases s,
{
    if s.len() == 0 {
        Seq::empty()
    } else {
        seq![(s[0].name@, s[0].value.deep())].add(deep_members(s.skip(1)))
    }
}

/// `deep_elems` maps element by element.
pub proof fn lemma_deep_elems(s: Seq<JsonNode>)
    ensures
        deep_elems(s).len() == s.len(),
        forall|i: int| 0 <= i < s.len() ==> deep_elems(s)[i] == s[i].deep(),
    decreases s.len(),
{
    if s.len() > 0 {
        lemma_deep_elems(s.skip(1));
    }
}

/// `deep_members` maps member by member.
pub proof fn lemma_deep_members(s: Seq<JsonMember>)
    ensures
        deep_members(s).len() == s.len(),
        forall|i: int| 0 <= i < s.len()
            ==> deep_members(s)[i] == (s[i].name@, s[i].value.deep()),
    decreases s.len(),
{
    if s.len() > 0 {
        lemma_deep_members(s.skip(1));
    }
}

/// The member named `k` among object members `o`, first match.
pub open spec fn spec_member(o: Seq<(Seq<char>, JsonVal)>, k: Seq<char>) -> Option<JsonVal>
    decreases o.len(),
{
    if o.len() == 0 {
        None
    } else if o[0].0 == k {
        Some(o[0].1)
    } else {
        spec_member(o.skip(1), k)
    }
}

/// The member named `k` of an object node; `None` when the node is not
/// an object or has no such member.
pub open spec fn spec_get(v: JsonVal, k: Seq<char>) -> Option<JsonVal> {
    match v {
        JsonVal::Obj(o) => spec_member(o, k),
        _ => None,
    }
}

/// Looks up the member named `key` of an object node.
pub fn get<'a>(node: &'a JsonNode, key: &str) -> (r: Option<&'a JsonNode>)
    ensures
        match r {
            Some(n) => spec_get(node.deep(), key@) == Some(n.deep()),
            None => spec_get(node.deep(), key@) is None,
        },
{
    match node {
        JsonNode::Obj(members) => {
            let ghost o = (match node.deep() { JsonVal::Obj(o) => o, _ => Seq::empty() });
            proof {
                lemma_deep_members(members@);
                assert(o.skip(0) =~= o);
            }
            let mut i: usize = 0;
            while i < members.len()
                invariant
                    i <= members@.len(),
                    o == (match node.deep() { JsonVal::Obj(o) => o, _ => Seq::<(Seq<char>, JsonVal)>::empty() }),
                    node matches JsonNode::Obj(m) && m == members,
                    o.len() == members@.len(),
                    forall|j: int| 0 <= j < o.len()
                        ==> o[j] == (members@[j].name@, members@[j].value.deep()),
                    spec_member(o, key@) == spec_member(o.skip(i as int), key@),
                    forall|j: int| 0 <= j < i ==> members@[j].name@ != key@,
                decreases members@.len() - i,
            {
                let entry = &members[i];
                if crate::text::str_eq(entry.name.as_str(), key) {
                    proof {
                        assert(o.skip(i as int)[0] == (members@[i as int].name@, members@[i as int].value.deep()));
                        assert(spec_member(o.skip(i as int), key@) == Some(members@[i as int].value.deep()));
                    }
                    return Some(&entry.value);
                }
                proof {
                    assert(o.skip(i as int)[0].0 != key@);
                    assert(o.skip(i as int).skip(1) =~= o.skip(i + 1 as int));
                }
                i += 1;
            }
            proof {
                assert(o.skip(members@.len() as int) =~= Seq::<(Seq<char>, JsonVal)>::empty());
            }
            None
        },
        _ => None,
    }
}

/// A first match at index `i` settles the member lookup.
proof fn lemma_member_first(o: Seq<(Seq<char>, JsonVal)>, i: int, k: Seq<char>)
    requires
        0 <= i < o.len(),
        forall|j: int| 0 <= j < i ==> o[j].0 != k,
        o[i].0 == k,
    ensures
        spec_member(o, k) == Some(o[i].1),
    decreases i,
{
    if i > 0 {
        lemma_member_first(o.skip(1), i - 1, k);
    }
}

/// Removing an entry whose name is not `k` leaves the lookup of `k`
/// unchanged.
proof fn lemma_member_remove(o: Seq<(Seq<char>, JsonVal)>, i: int, k: Seq<char>)
    requires
        0 <= i < o.len(),
        o[i].0 != k,
    ensures
        spec_member(o.remove(i), k) == spec_member(o, k),
    decreases i,
{
    if i == 0 {
        assert(o.remove(0) =~= o.skip(1));
    } else {
        assert(o.remove(i).skip(1) =~= o.skip(1).remove(i - 1));
        lemma_member_remove(o.skip(1), i - 1, k);
    }
}

/// `deep_members` commutes with removal.
proof fn lemma_deep_members_remove(s: Seq<JsonMember>, i: int)
    requires
        0 <= i < s.len(),
    ensures
        deep_members(s.remove(i)) =~= deep_members(s).remove(i),
{
    lemma_deep_members(s);
    lemma_deep_members(s.remove(i));
}

/// Removes and returns the member named `key`, leaving the lookup of
/// every other name unchanged.
pub fn take_member(members: &mut Vec<JsonMember>, key: &str) -> (r: Option<JsonNode>)
    ensures
        match r {
            Some(n) => spec_member(deep_members(old(members)@), key@) == Some(n.deep()),
            None => spec_member(deep_members(old(members)@), key@) is None
                && final(members)@ == old(members)@,
        },
        forall|k: Seq<char>| k != key@
            ==> spec_member(deep_members(final(members)@), k)
                == spec_member(deep_members(old(members)@), k),
{
    let ghost o = deep_members(members@);
    proof {
        lemma_deep_members(members@);
        assert(o.skip(0) =~= o);
    }
    let mut i: usize = 0;
    while i < members.len()
        invariant
            i <= members@.len(),
            members@ == old(members)@,
            o == deep_members(members@),
            o.len() == members@.len(),
            forall|j: int| 0 <= j < o.len()
                ==> o[j] == (members@[j].name@, members@[j].value.deep()),
            spec_member(o, key@) == spec_member(o.skip(i as int), key@),
            forall|j: int| 0 <= j < i ==> members@[j].name@ != key@,
        decreases members@.len() - i,
    {
        let hit = crate::text::str_eq(members[i].name.as_str(), key);
        if hit {
            let m = members.remove(i);
            proof {
                lemma_member_first(o, i as int, key@);
                assert(spec_member(o, key@) == Some(m.value.deep()));
                assert forall|k: Seq<char>| k != key@
                    implies spec_member(deep_members(members@), k) == spec_member(o, k) by {
                    lemma_deep_members_remove(old(members)@, i as int);
                    lemma_member_remove(o, i as int, k);
                }
            }
            return Some(m.value);
        }
        proof {
            assert(o.skip(i as int)[0].0 != key@);
            assert(o.skip(i as int).skip(1) =~= o.skip(i + 1 as int));
        }
        i += 1;
    }
    proof {
        assert(o.skip(members@.len() as int) =~= Seq::<(Seq<char>, JsonVal)>::empty());
    }
    None
}

/// The integer value of a node, when it holds one.
pub open spec fn spec_as_int(v: Option<JsonVal>) -> Option<int> {
    match v {
        Some(JsonVal::Int(i)) => Some(i),
        _ => None,
    }
}

/// The text value of a node, when it holds one.
pub open spec fn spec_as_text(v: Option<JsonVal>) -> Option<Seq<char>> {
    match v {
        Some(JsonVal::Text(s)) => Some(s),
        _ => None,
    }
}

/// The integer member named `key` of an object node.
pub fn get_int(node: &JsonNode, key: &str) -> (r: Option<i64>)
    ensures
        match r {
            Some(i) => spec_as_int(spec_get(node.deep(), key@)) == Some(i as int),
            None => spec_as_int(spec_get(node.deep(), key@)) is None,
        },
{
    match get(node, key) {
        Some(JsonNode::Int(i)) => Some(*i),
        _ => None,
    }
}

/// The text member named `key` of an object node.
pub fn get_text<'a>(node: &'a JsonNode, key: &str) -> (r: Option<&'a String>)
    ensures
        match r {
            Some(s) => spec_as_text(spec_get(node.deep(), key@)) == Some(s@),
            None => spec_as_text(spec_get(node.deep(), key@)) is None,
        },
{
    match get(node, key) {
        Some(JsonNode::Text(s)) => Some(s),
        _ => None,
    }
}

} // verus!
