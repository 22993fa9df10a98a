//! A model of JSON values and of the fetched document.
use vstd::prelude::*;

verus! {

/// `serde_json::Number`, carried through unread.
#[verifier::external_type_specification]
#[verifier::external_body]
pub struct ExNumber(serde_json::Number);

/// A JSON value. A number is held as `serde_json` holds it; an object is the
/// list of its members in the order in which they were written.
#[derive(Debug, PartialEq)]
pub enum Json {
    Null,
    Bool(bool),
    Number(serde_json::Number),
    Text(String),
    Array(Vec<Json>),
    Object(Vec<(String, Json)>),
}

/// The mathematical content of a [`Json`] value: texts as sequences of
/// characters, arrays and objects as sequences of contents.
pub enum JsonView {
    Null,
    Bool(bool),
    Number(serde_json::Number),
    Text(Seq<char>),
    Array(Seq<JsonView>),
    Object(Seq<(Seq<char>, JsonView)>),
}

impl View for Json {
    type V = JsonView;

    open spec fn view(&self) -> JsonView
        decreases self,
    {
        match self {
            Json::Null => JsonView::Null,
            Json::Bool(b) => JsonView::Bool(*b),
            Json::Number(n) => JsonView::Number(*n),
            Json::Text(s) => JsonView::Text(s@),
            Json::Array(items) => JsonView::Array(
                Seq::new(
                    items@.len(),
                    |i: int|
                        if 0 <= i < items@.len() {
                            items@[i].view()
                        } else {
                            JsonView::Null
                        },
                ),
            ),
            Json::Object(members) => JsonView::Object(
                Seq::new(
                    members@.len(),
                    |i: int|
                        if 0 <= i < members@.len() {
                            (members@[i].0@, members@[i].1.view())
                        } else {
                            (Seq::empty(), JsonView::Null)
                        },
                ),
            ),
        }
    }
}

/// `serde_json::Number` derives `Clone`: the copy holds the same number.
pub assume_specification[ <serde_json::Number as Clone>::clone ](
    n: &serde_json::Number,
) -> (res: serde_json::Number)
    ensures
        res == *n,
;

impl Clone for Json {
    /// A deep copy: the same content, in storage of its own.
    #[verifier::loop_isolation(false)]
    fn clone(&self) -> (res: Json)
        ensures
            res@ == self@,
        decreases self,
    {
        match self {
            Json::Null => Json::Null,
            Json::Bool(b) => Json::Bool(*b),
            Json::Number(n) => Json::Number(n.clone()),
            Json::Text(s) => Json::Text(s.clone()),
            Json::Array(items) => {
                let mut copy: Vec<Json> = Vec::new();
                let mut i: usize = 0;
                while i < items.len()
                    invariant
                        i <= items.len(),
                        copy.len() == i,
                        forall|k: int| 0 <= k < i ==> copy@[k]@ == items@[k]@,
                    decreases items.len() - i,
                {
                    copy.push(items[i].clone());
                    i += 1;
                }
                let res = Json::Array(copy);
                assert(res@->Array_0 =~= self@->Array_0);
                res
            },
            Json::Object(members) => {
                let mut copy: Vec<(String, Json)> = Vec::new();
                let mut i: usize = 0;
                while i < members.len()
                    invariant
                        i <= members.len(),
                        copy.len() == i,
                        forall|k: int|
                            0 <= k < i ==> copy@[k].0@ == members@[k].0@ && copy@[k].1@
                                == members@[k].1@,
                    decreases members.len() - i,
                {
                    copy.push((members[i].0.clone(), members[i].1.clone()));
                    i += 1;
                }
                let res = Json::Object(copy);
                assert(res@->Object_0 =~= self@->Object_0);
                res
            },
        }
    }
}

/// The contents of the items of an array, item by item.
pub open spec fn item_views(items: Seq<Json>) -> Seq<JsonView> {
    Seq::new(items.len(), |i: int| items[i]@)
}

/// An array's content is the sequence of its items' contents.
pub proof fn lemma_array_view(items: Vec<Json>)
    ensures
        Json::Array(items)@ == JsonView::Array(item_views(items@)),
{
    assert(Json::Array(items)@->Array_0 =~= item_views(items@));
}

/// The fetched document: a mapping from member names to JSON values, in which
/// each name occurs once.
#[derive(Debug)]
pub struct Document {
    entries: Vec<(String, Json)>,
}

/// The mapping that a list of members stands for; of two members with one
/// name the later one counts.
spec fn members_map(entries: Seq<(String, Json)>) -> Map<Seq<char>, JsonView>
    decreases entries.len(),
{
    if entries.len() == 0 {
        Map::empty()
    } else {
        members_map(entries.drop_last()).insert(entries.last().0@, entries.last().1@)
    }
}

/// No name occurs twice among `entries`.
spec fn distinct_names(entries: Seq<(String, Json)>) -> bool {
    forall|i: int, j: int| 0 <= i < j < entries.len() ==> entries[i].0@ != entries[j].0@
}

/// A name that no member has is not in the mapping.
proof fn lemma_members_absent(entries: Seq<(String, Json)>, name: Seq<char>)
    requires
        forall|i: int| 0 <= i < entries.len() ==> entries[i].0@ != name,
    ensures
        !members_map(entries).contains_key(name),
    decreases entries.len(),
{
    if entries.len() > 0 {
        lemma_members_absent(entries.drop_last(), name);
    }
}

/// Where names are distinct, each member's name is mapped to its value.
proof fn lemma_members_present(entries: Seq<(String, Json)>, i: int)
    requires
        distinct_names(entries),
        0 <= i < entries.len(),
    ensures
        members_map(entries).contains_key(entries[i].0@),
        members_map(entries)[entries[i].0@] == entries[i].1@,
    decreases entries.len(),
{
    if i < entries.len() - 1 {
        lemma_members_present(entries.drop_last(), i);
    }
}

/// Where names are distinct, putting a new value in a member's place maps its
/// name to the new value and leaves the rest of the mapping alone.
proof fn lemma_members_update(entries: Seq<(String, Json)>, i: int, member: (String, Json))
    requires
        distinct_names(entries),
        0 <= i < entries.len(),
        member.0@ == entries[i].0@,
    ensures
        distinct_names(entries.update(i, member)),
        members_map(entries.update(i, member)) == members_map(entries).insert(
            member.0@,
            member.1@,
        ),
    decreases entries.len(),
{
    let updated = entries.update(i, member);
    if i == entries.len() - 1 {
        assert(updated.drop_last() =~= entries.drop_last());
        assert(members_map(updated) =~= members_map(entries).insert(member.0@, member.1@));
    } else {
        lemma_members_update(entries.drop_last(), i, member);
        assert(updated.drop_last() =~= entries.drop_last().update(i, member));
        assert(updated.last() == entries.last());
        assert(members_map(updated) =~= members_map(entries).insert(member.0@, member.1@));
    }
}

impl View for Document {
    type V = Map<Seq<char>, JsonView>;

    closed spec fn view(&self) -> Map<Seq<char>, JsonView> {
        members_map(self.entries@)
    }
}

impl Document {
    #[verifier::type_invariant]
    spec fn well_formed(self) -> bool {
        distinct_names(self.entries@)
    }

    /// The document without members.
    pub fn new() -> (doc: Document)
        ensures
            doc@ == Map::<Seq<char>, JsonView>::empty(),
    {
        Document { entries: Vec::new() }
    }

    /// Position of the member called `name`, if there is one.
    fn position(&self, name: &String) -> (found: Option<usize>)
        ensures
            match found {
                Some(i) => i < self.entries@.len() && self.entries@[i as int].0@ == name@,
                None => forall|i: int| 0 <= i < self.entries@.len() ==> self.entries@[i].0@ != name@,
            },
    {
        let mut i: usize = 0;
        while i < self.entries.len()
            invariant
                i <= self.entries@.len(),
                forall|k: int| 0 <= k < i ==> self.entries@[k].0@ != name@,
            decreases self.entries.len() - i,
        {
            if self.entries[i].0 == *name {
                return Some(i);
            }
            i += 1;
        }
        None
    }

    /// Binds `name` to `value`, in place of the value that `name` had, if any.
    pub fn insert(&mut self, name: String, value: Json)
        ensures
            final(self)@ == old(self)@.insert(name@, value@),
    {
        proof {
            use_type_invariant(&*self);
        }
        let found = self.position(&name);
        let mut entries: Vec<(String, Json)> = Vec::new();
        core::mem::swap(&mut entries, &mut self.entries);
        match found {
            Some(i) => {
                proof {
                    lemma_members_update(entries@, i as int, (name, value));
                }
                entries.set(i, (name, value));
            },
            None => {
                assert(entries@.push((name, value)).drop_last() =~= entries@);
                entries.push((name, value));
            },
        }
        self.entries = entries;
    }

    /// The value bound to `name`, if any.
    pub fn get(&self, name: &str) -> (found: Option<&Json>)
        ensures
            match found {
                Some(value) => self@.contains_key(name@) && self@[name@] == value@,
                None => !self@.contains_key(name@),
            },
    {
        proof {
            use_type_invariant(self);
        }
        let wanted = name.to_owned();
        match self.position(&wanted) {
            Some(i) => {
                proof {
                    lemma_members_present(self.entries@, i as int);
                }
                Some(&self.entries[i].1)
            },
            None => {
                proof {
                    lemma_members_absent(self.entries@, name@);
                }
                None
            },
        }
    }
}

} // verus!
