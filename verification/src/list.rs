//! Lists of bodies, as JSON arrays.

use crate::json::{element, json_element, json_length, length};
use crate::packet::Body;
use serde_json::Value;
use vstd::prelude::*;
use vstd::string::*;

verus! {

/// A list of bodies as contracts speak of it: each body by its view.
pub open spec fn list_view<T: View>(items: Seq<T>) -> Seq<T::V> {
    items.map_values(|item: T| item@)
}

/// The JSON texts of the bodies of a list, with a comma between one and the
/// next.
pub open spec fn items_encoded<T: Body>(items: Seq<T::V>) -> Seq<char>
    decreases items.len(),
{
    if items.len() == 0 {
        Seq::empty()
    } else if items.len() == 1 {
        T::encoded(items[0])
    } else {
        items_encoded::<T>(items.drop_last()) + ","@ + T::encoded(items.last())
    }
}

/// The JSON text of a list of bodies: an array of their texts.
pub open spec fn list_encoded<T: Body>(items: Seq<T::V>) -> Seq<char> {
    "["@ + items_encoded::<T>(items) + "]"@
}

/// The bodies that the first `n` elements of a JSON document stand for, where
/// each of them is there and stands for one.
pub open spec fn items_decoded<T: Body>(doc: Value, n: nat) -> Option<Seq<T::V>>
    decreases n,
{
    if n == 0 {
        Some(Seq::empty())
    } else {
        match (items_decoded::<T>(doc, (n - 1) as nat), json_element(doc, (n - 1) as usize)) {
            (Some(front), Some(found)) => match T::decoded(found) {
                Some(item) => Some(front.push(item)),
                None => None,
            },
            _ => None,
        }
    }
}

/// The list of bodies that a JSON document stands for: the document is an
/// array, and each of its elements stands for a body.
pub open spec fn list_decoded<T: Body>(doc: Value) -> Option<Seq<T::V>> {
    match json_length(doc) {
        Some(n) => items_decoded::<T>(doc, n as nat),
        None => None,
    }
}

/// Where the first elements of a document stand for no list, neither do more
/// of them.
pub proof fn lemma_items_stay_refused<T: Body>(doc: Value, k: nat, n: nat)
    requires
        k <= n,
        items_decoded::<T>(doc, k) is None,
    ensures
        items_decoded::<T>(doc, n) is None,
    decreases n,
{
    if k < n {
        lemma_items_stay_refused::<T>(doc, k, (n - 1) as nat);
    }
}

/// Writes a list of bodies as JSON text.
pub fn encode_list<T: Body>(items: &Vec<T>) -> (text: String)
    ensures
        text@ == list_encoded::<T>(list_view(items@)),
{
    let mut text = String::from_str("[");
    let ghost all = list_view(items@);
    let mut i: usize = 0;
    assert(all.take(0) =~= Seq::<T::V>::empty());
    assert("["@ + Seq::<char>::empty() =~= "["@);
    while i < items.len()
        invariant
            i <= items.len(),
            all == list_view(items@),
            text@ == "["@ + items_encoded::<T>(all.take(i as int)),
        decreases items.len() - i,
    {
        if i > 0 {
            text.append(",");
        }
        text.append(items[i].encode().as_str());
        proof {
            let shorter = all.take(i as int);
            let longer = all.take(i as int + 1);
            assert(longer.drop_last() =~= shorter);
            assert(longer.last() == items@[i as int]@);
            assert(text@ =~= "["@ + items_encoded::<T>(longer));
        }
        i += 1;
    }
    assert(all.take(i as int) =~= all);
    text.append("]");
    text
}

/// Reads a list of bodies from a JSON document.
pub fn decode_list<T: Body>(doc: &Value) -> (r: Option<Vec<T>>)
    ensures
        match r {
            Some(items) => list_decoded::<T>(*doc) == Some(list_view(items@)),
            None => list_decoded::<T>(*doc) is None,
        },
{
    let n = match length(doc) {
        Some(n) => n,
        None => return None,
    };
    let mut items: Vec<T> = Vec::new();
    let mut i: usize = 0;
    assert(list_view(items@) =~= Seq::<T::V>::empty());
    while i < n
        invariant
            i <= n,
            json_length(*doc) == Some(n),
            items@.len() == i,
            items_decoded::<T>(*doc, i as nat) == Some(list_view(items@)),
        decreases n - i,
    {
        let ghost front = list_view(items@);
        let item = match element(doc, i) {
            Some(found) => T::decode(found),
            None => None,
        };
        match item {
            Some(item) => {
                items.push(item);
                assert(list_view(items@) =~= front.push(item@));
            },
            None => {
                proof {
                    assert(items_decoded::<T>(*doc, (i + 1) as nat) is None);
                    lemma_items_stay_refused::<T>(*doc, (i + 1) as nat, n as nat);
                }
                return None;
            },
        }
        i += 1;
    }
    Some(items)
}

/// Whether two lists hold the same bodies in the same order.
pub fn same_list<T: Body>(a: &Vec<T>, b: &Vec<T>) -> (same: bool)
    ensures
        same == (list_view(a@) == list_view(b@)),
{
    if a.len() != b.len() {
        assert(list_view(a@).len() != list_view(b@).len());
        return false;
    }
    let mut i: usize = 0;
    while i < a.len()
        invariant
            i <= a.len(),
            a@.len() == b@.len(),
            forall|j: int| 0 <= j < i ==> a@[j]@ == b@[j]@,
        decreases a.len() - i,
    {
        if !a[i].same(&b[i]) {
            assert(list_view(a@)[i as int] != list_view(b@)[i as int]);
            return false;
        }
        i += 1;
    }
    assert(list_view(a@) =~= list_view(b@));
    true
}

} // verus!
