use crate::states::{Initial, Processed, Validated};
use vstd::prelude::*;

verus! {

/// The text that a processor reports when asked to validate empty data.
pub open spec fn empty_data_message() -> Seq<char> {
    "Data cannot be empty"@
}

/// What `str::to_uppercase` makes of a sequence of characters.
pub uninterp spec fn upper_of(s: Seq<char>) -> Seq<char>;

/// Relies on `str::to_uppercase`: the result is determined by the characters
/// of the input alone, and each character maps to one or more characters.
#[verifier::external_body]
fn uppercase(s: &String) -> (r: String)
    ensures
        r@ == upper_of(s@),
        (s@.len() == 0) == (r@.len() == 0),
{
    s.to_uppercase()
}

/// A holder of text whose stage (`Initial`, `Validated`, `Processed`) is part
/// of its type, so that the stages can only be passed through in order.
pub struct DataProcessor<State> {
    data: String,
    state: State,
}

impl<State> View for DataProcessor<State> {
    type V = Seq<char>;

    /// The text the processor currently holds.
    closed spec fn view(&self) -> Seq<char> {
        self.data@
    }
}

impl DataProcessor<Initial> {
    /// Starts a processor on `data`, not yet validated.
    pub fn new(data: String) -> (r: Self)
        ensures
            r@ == data@,
    {
        DataProcessor { data, state: Initial }
    }

    /// Moves to the validated stage when the data is non-empty; otherwise
    /// reports that empty data cannot be validated.
    pub fn validate(self) -> (r: Result<DataProcessor<Validated>, String>)
        ensures
            self@.len() > 0 <==> r is Ok,
            r matches Ok(p) ==> p@ == self@,
            r matches Err(e) ==> e@ == empty_data_message(),
    {
        if self.data.as_str().is_empty() {
            Err("Data cannot be empty".to_string())
        } else {
            Ok(DataProcessor { data: self.data, state: Validated })
        }
    }
}

impl DataProcessor<Validated> {
    /// Moves to the processed stage, turning the text to upper case.
    pub fn process(self) -> (r: DataProcessor<Processed>)
        ensures
            r@ == upper_of(self@),
    {
        DataProcessor { data: uppercase(&self.data), state: Processed }
    }
}

impl DataProcessor<Processed> {
    /// The processed text.
    pub fn get_processed_data(&self) -> (r: &String)
        ensures
            r@ == self@,
    {
        &self.data
    }
}

} // verus!
