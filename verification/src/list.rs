//! A list that the server writes as `{}` when it is empty.
use crate::decode::Decode;
use crate::error::Error;
use crate::json::{lemma_array_value, lemma_object_value, values, Json, JsonValue};
use vstd::prelude::*;

verus! {

/// A collection that arrives either as an object without members or as an
/// array of `T`.
#[derive(PartialEq)]
pub enum MaybeEmptyList<T> {
    Empty {  },
    List(Vec<T>),
}

/// The mathematical value of a [`MaybeEmptyList`].
pub ghost enum ListView<V> {
    Empty,
    List(Seq<V>),
}

impl<V> ListView<V> {
    /// The items of the collection, in order; none for `Empty`.
    pub open spec fn items(self) -> Seq<V> {
        match self {
            ListView::Empty => Seq::empty(),
            ListView::List(items) => items,
        }
    }
}

impl<T: DeepView> DeepView for MaybeEmptyList<T> {
    type V = ListView<T::V>;

    open spec fn deep_view(&self) -> ListView<T::V> {
        match self {
            MaybeEmptyList::Empty {  } => ListView::Empty,
            MaybeEmptyList::List(items) => ListView::List(items.deep_view()),
        }
    }
}

/// Whether every document of `items` parses as a `T`.
pub open spec fn all_parse<T: Decode>(items: Seq<JsonValue>) -> bool {
    forall|i: int| 0 <= i < items.len() ==> (#[trigger] T::parse(items[i])) is Some
}

/// The models that the documents of `items` parse to, in order.
pub open spec fn parse_each<T: Decode>(items: Seq<JsonValue>) -> Seq<T::V> {
    Seq::new(items.len(), |i: int| T::parse(items[i])->Some_0)
}

impl<T: Decode> Decode for MaybeEmptyList<T> {
    /// An object without members is the empty collection; an array whose
    /// elements all parse is the list of what they parse to, in order. Any
    /// other document, an object with members among them, has no such shape.
    open spec fn parse(value: JsonValue) -> Option<ListView<T::V>> {
        match value {
            JsonValue::Object(members) if members.len() == 0 => Some(ListView::Empty),
            JsonValue::Array(items) if all_parse::<T>(items) => Some(
                ListView::List(parse_each::<T>(items)),
            ),
            _ => None,
        }
    }

    fn decode(json: &Json) -> (decoded: Result<MaybeEmptyList<T>, Error>) {
        match json {
            Json::Object(members) => {
                proof {
                    lemma_object_value(*members);
                }
                if members.len() == 0 {
                    Ok(MaybeEmptyList::Empty {  })
                } else {
                    Err(Error::Decode)
                }
            },
            Json::Array(items) => {
                proof {
                    lemma_array_value(*items);
                }
                let mut list: Vec<T> = Vec::new();
                let mut i: usize = 0;
                while i < items.len()
                    invariant
                        json.deep_view() == JsonValue::Array(values(items@)),
                        i <= items.len(),
                        list@.len() == i,
                        forall|k: int|
                            0 <= k < i ==> T::parse(#[trigger] values(items@)[k]) == Some(
                                list@[k].deep_view(),
                            ),
                    decreases items.len() - i,
                {
                    assert(values(items@)[i as int] == items@[i as int].deep_view());
                    match T::decode(&items[i]) {
                        Ok(item) => {
                            list.push(item);
                        },
                        Err(e) => {
                            assert(!all_parse::<T>(values(items@))) by {
                                assert(T::parse(values(items@)[i as int]) is None);
                            }
                            return Err(e);
                        },
                    }
                    i += 1;
                }
                assert(list.deep_view() =~= parse_each::<T>(values(items@)));
                Ok(MaybeEmptyList::List(list))
            },
            _ => Err(Error::Decode),
        }
    }
}

/// An object without members is the empty collection.
pub proof fn law_empty_object<T: Decode>(value: JsonValue)
    requires
        value == JsonValue::Object(Seq::empty()),
    ensures
        MaybeEmptyList::<T>::parse(value) == Some(ListView::<T::V>::Empty),
        MaybeEmptyList::<T>::parse(value)->Some_0.items().len() == 0,
{
}

/// An array without elements is a list without items.
pub proof fn law_empty_array<T: Decode>(value: JsonValue)
    requires
        value == JsonValue::Array(Seq::empty()),
    ensures
        MaybeEmptyList::<T>::parse(value) == Some(ListView::<T::V>::List(Seq::empty())),
        MaybeEmptyList::<T>::parse(value)->Some_0.items().len() == 0,
{
    assert(parse_each::<T>(Seq::empty()) =~= Seq::empty());
}

/// An array of one element that parses is the list of what it parses to.
pub proof fn law_array_of_one<T: Decode>(element: JsonValue)
    requires
        T::parse(element) is Some,
    ensures
        MaybeEmptyList::<T>::parse(JsonValue::Array(seq![element])) == Some(
            ListView::<T::V>::List(seq![T::parse(element)->Some_0]),
        ),
{
    assert(parse_each::<T>(seq![element]) =~= seq![T::parse(element)->Some_0]);
}

/// An array parses exactly where each of its elements does, and then item by
/// item, in order.
pub proof fn law_array_by_elements<T: Decode>(elements: Seq<JsonValue>)
    ensures
        MaybeEmptyList::<T>::parse(JsonValue::Array(elements)) is Some <==> all_parse::<T>(
            elements,
        ),
        all_parse::<T>(elements) ==> {
            let items = MaybeEmptyList::<T>::parse(JsonValue::Array(elements))->Some_0.items();
            &&& items.len() == elements.len()
            &&& forall|i: int|
                0 <= i < elements.len() ==> T::parse(elements[i]) == Some(#[trigger] items[i])
        },
{
}

/// Nothing but an object without members and an array is a collection: not
/// `null`, a boolean, a number or a text, nor an object with members.
pub proof fn law_other_shapes_fail<T: Decode>(value: JsonValue)
    requires
        !(value is Array),
        value is Object ==> value->Object_0.len() > 0,
    ensures
        MaybeEmptyList::<T>::parse(value) is None,
{
}

} // verus!
