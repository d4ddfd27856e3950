use vstd::prelude::*;

verus! {

/// Why a single request was refused before reaching the model.
#[derive(Debug, Clone, Copy, PartialEq, Eq, Structural)]
pub enum RequestError {
    EmptyText,
    EmptyImage,
}

impl RequestError {
    /// The text shown to the caller.
    pub fn message(&self) -> (r: &'static str)
        ensures
            *self == RequestError::EmptyText ==> r@ == "Text cannot be empty"@,
            *self == RequestError::EmptyImage ==> r@ == "Image bytes cannot be empty"@,
    {
        match self {
            RequestError::EmptyText => "Text cannot be empty",
            RequestError::EmptyImage => "Image bytes cannot be empty",
        }
    }
}

/// Why a single request failed at the model.
#[derive(Debug)]
pub enum UnaryError<E> {
    /// The model reported an error.
    Model(E),
    /// The model returned this many vectors for one input instead of one.
    WrongCount(usize),
}

/// Accepts a text for embedding unless it is empty.
pub fn validate_text(text: String) -> (r: Result<String, RequestError>)
    ensures
        text@.len() == 0 ==> r == Err::<String, RequestError>(RequestError::EmptyText),
        text@.len() > 0 ==> r == Ok::<String, RequestError>(text),
{
    if text.as_str().is_empty() {
        Err(RequestError::EmptyText)
    } else {
        Ok(text)
    }
}

/// Accepts image bytes for embedding unless there are none.
pub fn validate_image(image: Vec<u8>) -> (r: Result<Vec<u8>, RequestError>)
    ensures
        image@.len() == 0 ==> r == Err::<Vec<u8>, RequestError>(RequestError::EmptyImage),
        image@.len() > 0 ==> r == Ok::<Vec<u8>, RequestError>(image),
{
    if image.len() == 0 {
        Err(RequestError::EmptyImage)
    } else {
        Ok(image)
    }
}

/// The answer to a single request, sent to the model as a batch of one: its
/// one vector, or the model's error, or a count error when the model
/// returned other than exactly one vector.
pub fn single_embedding<V, E>(outcome: Result<Vec<V>, E>) -> (r: Result<V, UnaryError<E>>)
    ensures
        match outcome {
            Ok(vs) => if vs@.len() == 1 {
                r == Ok::<V, UnaryError<E>>(vs@[0])
            } else {
                r == Err::<V, UnaryError<E>>(UnaryError::WrongCount(vs@.len() as usize))
            },
            Err(e) => r == Err::<V, UnaryError<E>>(UnaryError::Model(e)),
        },
{
    match outcome {
        Ok(vectors) => {
            let mut vs = vectors;
            if vs.len() == 1 {
                let v = vs.remove(0);
                Ok(v)
            } else {
                Err(UnaryError::WrongCount(vs.len()))
            }
        },
        Err(e) => Err(UnaryError::Model(e)),
    }
}

} // verus!
