//! Results of calls that concern the simulated scene.

use crate::error::DecodeError;
use crate::message::{Response, ResponseModel};
use crate::value::{models_of, ValueModel, WireValue};
use vstd::prelude::*;

verus! {

/// The names of the objects in the simulated scene.
#[derive(Debug, Clone)]
pub struct SceneObjects(pub Vec<String>);

/// The texts of a sequence of strings, one by one.
pub open spec fn texts_of(names: Seq<String>) -> Seq<Seq<char>> {
    Seq::new(names.len(), |i: int| names[i]@)
}

impl View for SceneObjects {
    type V = Seq<Seq<char>>;

    /// The names, in order.
    open spec fn view(&self) -> Seq<Seq<char>> {
        texts_of(self.0@)
    }
}

/// The texts of a sequence of values, if every one of them is a text string.
pub open spec fn all_texts(items: Seq<ValueModel>) -> Option<Seq<Seq<char>>> {
    if forall|i: int| 0 <= i < items.len() ==> (#[trigger] items[i]) is String {
        Some(Seq::new(items.len(), |i: int| items[i]->String_0))
    } else {
        None
    }
}

impl SceneObjects {
    /// The names that a response carries: its result is an array of text
    /// strings. A response with an error, or a result of any other shape,
    /// carries none.
    pub open spec fn of_response(response: ResponseModel) -> Result<Seq<Seq<char>>, DecodeError> {
        match response.result {
            Ok(ValueModel::Array(items)) => match all_texts(items) {
                Some(names) => Ok(names),
                None => Err(DecodeError::UnexpectedShape),
            },
            _ => Err(DecodeError::UnexpectedShape),
        }
    }

    /// Reads the names off a response.
    pub fn from_response(msgpack: &Response) -> (out: Result<SceneObjects, DecodeError>)
        ensures
            match out {
                Ok(objects) => SceneObjects::of_response(msgpack@) == Ok::<
                    Seq<Seq<char>>,
                    DecodeError,
                >(objects@),
                Err(error) => SceneObjects::of_response(msgpack@) == Err::<
                    Seq<Seq<char>>,
                    DecodeError,
                >(error),
            },
    {
        let payload: &Vec<WireValue> = match &msgpack.result {
            Ok(WireValue::Array(items)) => items,
            _ => {
                return Err(DecodeError::UnexpectedShape);
            },
        };
        let ghost items = models_of(payload@);
        assert(msgpack@.result == Ok::<ValueModel, ValueModel>(ValueModel::Array(items)));
        let mut objects: Vec<String> = Vec::new();
        let mut i: usize = 0;
        while i < payload.len()
            invariant
                i <= payload.len(),
                items == models_of(payload@),
                msgpack@.result == Ok::<ValueModel, ValueModel>(ValueModel::Array(items)),
                objects@.len() == i,
                forall|j: int| 0 <= j < i ==> (#[trigger] items[j]) is String,
                forall|j: int| 0 <= j < i ==> (#[trigger] objects@[j])@ == items[j]->String_0,
            decreases payload.len() - i,
        {
            match payload[i].as_str() {
                Some(s) => {
                    objects.push(s.to_owned());
                },
                None => {
                    assert(!(items[i as int] is String));
                    return Err(DecodeError::UnexpectedShape);
                },
            }
            i += 1;
        }
        assert(texts_of(objects@) =~= all_texts(items).unwrap());
        Ok(SceneObjects(objects))
    }
}

} // verus!
