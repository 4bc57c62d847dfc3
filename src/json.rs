use vstd::prelude::*;

verus! {

broadcast use vstd::std_specs::vec::group_vec_axioms;

/// A JSON document held as plain values. A number keeps the text it was
/// written with.
#[derive(Debug)]
pub enum Json {
    Null,
    Bool(bool),
    Number(String),
    Str(String),
    Array(Vec<Json>),
    Object(Vec<(String, Json)>),
}

/// The mathematical value of a [`Json`] document.
pub enum JsonView {
    Null,
    Bool(bool),
    Number(Seq<char>),
    Str(Seq<char>),
    Array(Seq<JsonView>),
    Object(Seq<(Seq<char>, JsonView)>),
}

pub open spec fn json_view(j: Json) -> JsonView
    decreases j,
{
    match j {
        Json::Null => JsonView::Null,
        Json::Bool(b) => JsonView::Bool(b),
        Json::Number(n) => JsonView::Number(n@),
        Json::Str(s) => JsonView::Str(s@),
        Json::Array(items) => JsonView::Array(
            Seq::new(
                items@.len(),
                |i: int|
                    if 0 <= i < items@.len() {
                        json_view(items@[i])
                    } else {
                        JsonView::Null
                    },
            ),
        ),
        Json::Object(fields) => JsonView::Object(
            Seq::new(
                fields@.len(),
                |i: int|
                    if 0 <= i < fields@.len() {
                        (fields@[i].0@, json_view(fields@[i].1))
                    } else {
                        (Seq::empty(), JsonView::Null)
                    },
            ),
        ),
    }
}

impl View for Json {
    type V = JsonView;

    open spec fn view(&self) -> JsonView {
        json_view(*self)
    }
}

/// The value of the first member named `key`, if any.
pub open spec fn member(fields: Seq<(Seq<char>, JsonView)>, key: Seq<char>) -> Option<JsonView>
    decreases fields.len(),
{
    if fields.len() == 0 {
        None
    } else if fields[0].0 == key {
        Some(fields[0].1)
    } else {
        member(fields.drop_first(), key)
    }
}

/// The value of the member named `key` of an object; `None` for anything
/// else or where no member has that name.
pub open spec fn get(j: JsonView, key: Seq<char>) -> Option<JsonView> {
    match j {
        JsonView::Object(ms) => member(ms, key),
        _ => None,
    }
}

/// The member lookup of an object of at most three members, spelled out.
pub proof fn lemma_member_of_three(
    fields: Seq<(Seq<char>, JsonView)>,
    key: Seq<char>,
)
    requires
        1 <= fields.len() <= 3,
    ensures
        member(fields, key) == if fields[0].0 == key {
            Some(fields[0].1)
        } else if fields.len() > 1 && fields[1].0 == key {
            Some(fields[1].1)
        } else if fields.len() > 2 && fields[2].0 == key {
            Some(fields[2].1)
        } else {
            None
        },
{
    reveal_with_fuel(member, 4);
    let one = fields.drop_first();
    let two = one.drop_first();
    let three = two.drop_first();
    if fields.len() > 1 {
        assert(one[0] == fields[1]);
    }
    if fields.len() > 2 {
        assert(two[0] == fields[2]);
        assert(three.len() == 0);
    }
}

/// Looks up the first member named `key` of an object.
pub fn lookup<'a>(j: &'a Json, key: &str) -> (r: Option<&'a Json>)
    ensures
        match r {
            Some(v) => get(j@, key@) == Some(v@),
            None => get(j@, key@) is None,
        },
{
    match j {
        Json::Object(fields) => {
            let ghost ms = match j@ {
                JsonView::Object(ms) => ms,
                _ => Seq::empty(),
            };
            assert(ms.len() == fields@.len());
            assert(ms =~= ms.skip(0));
            let mut i: usize = 0;
            while i < fields.len()
                invariant
                    0 <= i <= fields@.len(),
                    ms.len() == fields@.len(),
                    j@ == JsonView::Object(ms),
                    forall|k: int| 0 <= k < ms.len() ==> #[trigger] ms[k] == (fields@[k].0@, json_view(fields@[k].1)),
                    member(ms, key@) == member(ms.skip(i as int), key@),
                decreases fields@.len() - i,
            {
                let field = &fields[i];
                assert(ms.skip(i as int)[0] == ms[i as int]);
                if str_equal(field.0.as_str(), key) {
                    return Some(&field.1);
                }
                assert(ms.skip(i as int).drop_first() =~= ms.skip(i + 1));
                i = i + 1;
            }
            None
        },
        _ => None,
    }
}

/// Whether two strings hold the same characters.
pub fn str_equal(a: &str, b: &str) -> (r: bool)
    ensures
        r == (a@ == b@),
{
    let n = a.unicode_len();
    if n != b.unicode_len() {
        return false;
    }
    let mut i: usize = 0;
    while i < n
        invariant
            n == a@.len() == b@.len(),
            0 <= i <= n,
            forall|k: int| 0 <= k < i ==> a@[k] == b@[k],
        decreases n - i,
    {
        if a.get_char(i) != b.get_char(i) {
            return false;
        }
        i = i + 1;
    }
    assert(a@ =~= b@);
    true
}

} // verus!
