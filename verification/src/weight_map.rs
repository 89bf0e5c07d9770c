//! The index of a sharded checkpoint: a JSON object that maps each weight to
//! the file that holds it. The files to fetch are the distinct strings among
//! its values.

use vstd::prelude::*;
use serde_json::Value;

verus! {

#[verifier::external_type_specification]
#[verifier::external_body]
pub struct ExValue(Value);

/// Why a weight map could not be read.
#[derive(Clone, Copy, Debug, PartialEq, Eq, Structural)]
pub enum WeightMapError {
    /// The JSON value is no object.
    NotAnObject,
}

/// For a JSON object: what `Value::as_str` gives for each of its members'
/// values, in the order in which `Map::values` hands them out. `None` for
/// every other JSON value.
pub uninterp spec fn member_strings(value: Value) -> Option<Seq<Option<Seq<char>>>>;

/// Calls `Value::as_object` and, on the object, `Map::values`, and turns each
/// value into a string with `Value::as_str`. Not proved: that this is a
/// function of the JSON value alone.
#[verifier::external_body]
pub(crate) fn object_member_strings(value: &Value) -> (r: Option<Vec<Option<String>>>)
    ensures
        member_strings(*value) == (match r {
            Some(members) => Some(members.deep_view()),
            None => None,
        }),
{
    match value.as_object() {
        Some(object) => Some(
            object.values().map(|member| member.as_str().map(str::to_owned)).collect(),
        ),
        None => None,
    }
}

/// The distinct strings among `members`, each at the place of its first
/// occurrence; what is no string is passed over.
pub open spec fn distinct_names(members: Seq<Option<Seq<char>>>) -> Seq<Seq<char>>
    decreases members.len(),
{
    if members.len() == 0 {
        Seq::empty()
    } else {
        let before = distinct_names(members.drop_last());
        match members.last() {
            Some(name) => if before.contains(name) {
                before
            } else {
                before.push(name)
            },
            None => before,
        }
    }
}

/// The names are exactly the strings among the members.
pub proof fn lemma_distinct_names_are_the_strings(members: Seq<Option<Seq<char>>>, name: Seq<char>)
    ensures
        distinct_names(members).contains(name) <==> members.contains(Some(name)),
    decreases members.len(),
{
    if members.len() > 0 {
        let before = members.drop_last();
        lemma_distinct_names_are_the_strings(before, name);
        if members.contains(Some(name)) {
            let i = choose|i: int| 0 <= i < members.len() && members[i] == Some(name);
            if i < before.len() {
                assert(before[i] == Some(name));
            }
        }
        if before.contains(Some(name)) {
            let i = choose|i: int| 0 <= i < before.len() && before[i] == Some(name);
            assert(members[i] == Some(name));
        }
        match members.last() {
            Some(last) => {
                let names = distinct_names(before);
                if !names.contains(last) {
                    assert(names.push(last)[names.len() as int] == last);
                    assert(forall|i: int| 0 <= i < names.len() ==> names.push(last)[i] == names[i]);
                }
                assert(members[members.len() - 1] == Some(last));
            },
            None => {},
        }
    }
}

/// No name occurs twice.
pub proof fn lemma_distinct_names_differ(members: Seq<Option<Seq<char>>>)
    ensures
        distinct_names(members).no_duplicates(),
    decreases members.len(),
{
    if members.len() > 0 {
        lemma_distinct_names_differ(members.drop_last());
    }
}

/// Whether `name` is one of `names`.
fn contains_name(names: &Vec<String>, name: &String) -> (r: bool)
    ensures
        r == names.deep_view().contains(name@),
{
    let mut i: usize = 0;
    while i < names.len()
        invariant
            i <= names.len(),
            forall|j: int| 0 <= j < i ==> names.deep_view()[j] != name@,
        decreases names.len() - i,
    {
        if names[i] == *name {
            assert(names.deep_view()[i as int] == name@);
            return true;
        }
        i = i + 1;
    }
    false
}

/// The distinct strings among the values of a weight map, in the order of
/// their first occurrence.
pub fn weight_names(members: &Vec<Option<String>>) -> (names: Vec<String>)
    ensures
        names.deep_view() == distinct_names(members.deep_view()),
        names.deep_view().no_duplicates(),
{
    let mut names: Vec<String> = Vec::new();
    let mut i: usize = 0;
    assert(members.deep_view().take(0) =~= Seq::empty());
    assert(names.deep_view() =~= Seq::empty());
    while i < members.len()
        invariant
            i <= members.len(),
            names.deep_view() == distinct_names(members.deep_view().take(i as int)),
        decreases members.len() - i,
    {
        let ghost before = names.deep_view();
        let ghost upto = members.deep_view().take(i + 1);
        proof {
            assert(upto.drop_last() =~= members.deep_view().take(i as int));
            assert(upto.last() == members.deep_view()[i as int]);
            assert(members.deep_view()[i as int] == members@[i as int].deep_view());
        }
        match &members[i] {
            Some(name) => {
                if !contains_name(&names, name) {
                    names.push(name.clone());
                    assert(names.deep_view() =~= before.push(name@));
                }
            },
            None => {},
        }
        i = i + 1;
    }
    proof {
        assert(members.deep_view().take(members.len() as int) =~= members.deep_view());
        lemma_distinct_names_differ(members.deep_view());
    }
    names
}

/// The weight files that a checkpoint index names: the distinct strings
/// among the values of the JSON object; an error where the JSON value is no
/// object.
pub fn weight_files(index: &Value) -> (r: Result<Vec<String>, WeightMapError>)
    ensures
        match r {
            Ok(names) => member_strings(*index) matches Some(members) && names.deep_view()
                == distinct_names(members),
            Err(e) => e == WeightMapError::NotAnObject && member_strings(*index) is None,
        },
{
    match object_member_strings(index) {
        Some(members) => Ok(weight_names(&members)),
        None => Err(WeightMapError::NotAnObject),
    }
}

} // verus!
