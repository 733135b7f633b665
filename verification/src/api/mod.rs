use vstd::prelude::*;
use crate::error::Error;

pub mod tasks;
pub mod user;

verus! {

pub type Date = String;

pub type DateTimeOffset = String;

pub type StringCollection = Vec<String>;

/// The metadata that travels with one page of a collection.
#[derive(Debug, Clone)]
pub struct OData {
    /// What the page describes, as the server names it.
    pub context: Option<String>,
    /// Where the next page is to be had. Absent on the last page. The string
    /// is opaque: nothing here looks inside it.
    pub next_link: Option<String>,
}

impl OData {
    /// The continuation cursor as a sequence of characters.
    pub open spec fn link(&self) -> Option<Seq<char>> {
        match self.next_link {
            Some(l) => Some(l@),
            None => None,
        }
    }
}

/// One page as the reader's model sees it: the items in server order, and the
/// continuation cursor.
pub struct PageView<T> {
    pub items: Seq<T>,
    pub next_link: Option<Seq<char>>,
}

/// One page of a collection: its items in server order, and its metadata.
#[derive(Debug, Clone)]
pub struct Collection<T> {
    pub value: Vec<T>,
    pub odata: OData,
}

impl<T> View for Collection<T> {
    type V = PageView<T>;

    open spec fn view(&self) -> PageView<T> {
        PageView { items: self.value@, next_link: self.odata.link() }
    }
}

impl<T> Collection<T> {
    /// Puts a page together from the members of its document. A document
    /// without the items member stands for a page without items.
    pub fn from_parts(value: Option<Vec<T>>, odata: OData) -> (page: Collection<T>)
        ensures
            page.odata == odata,
            value matches Some(v) ==> page.value == v,
            value is None ==> page.value@ == Seq::<T>::empty(),
    {
        match value {
            Some(v) => Collection { value: v, odata },
            None => Collection { value: Vec::new(), odata },
        }
    }

    /// The item that the operator means by `number`, where the items are
    /// listed with numbers from 1 on. No item has the number 0, nor a number
    /// beyond the last.
    pub fn pick(&self, number: u32) -> (item: Option<&T>)
        ensures
            1 <= number <= self.value@.len() ==> item == Some(&self.value@[number - 1]),
            !(1 <= number <= self.value@.len()) ==> item is None,
    {
        if number == 0 {
            return None;
        }
        let index: usize = (number - 1) as usize;
        if index < self.value.len() {
            Some(&self.value[index])
        } else {
            None
        }
    }
}

/// A date and time together with the time zone it is given in.
#[derive(Debug, Clone)]
pub struct DateTimeTimeZone {
    pub date_time: String,
    pub time_zone: String,
}

/// What one reply of the service holds: the value that was asked for, or the
/// service's account of why there is none. Never both.
#[derive(Debug, Clone)]
pub enum Response<T> {
    Success(T),
    Error(ErrorResponse),
}

/// The document with which the service reports a failure.
#[derive(Debug, Clone)]
pub struct ErrorResponse {
    pub error: ErrorResponseError,
}

/// The failure that an `ErrorResponse` reports.
#[derive(Debug, Clone)]
pub struct ErrorResponseError {
    /// The service's code for the kind of failure.
    pub code: String,
    /// A description for the operator.
    pub message: String,
    /// Identifiers by which the failed request can be traced.
    pub inner_error: ErrorResponseErrorInnerError,
}

/// Identifiers by which a failed request can be traced.
#[derive(Debug, Clone)]
pub struct ErrorResponseErrorInnerError {
    pub date: String,
    pub request_id: String,
    pub client_request_id: String,
}

impl<T> Response<T> {
    /// Settles what a document is, from the two attempts to read it:
    /// `success` as the value that was asked for, `error` as the service's
    /// failure report. Each attempt holds the value, or the description of the
    /// first thing that did not fit.
    ///
    /// The value wins wherever the document can be read as one, also where it
    /// can be read as a failure report too. A document that is neither is a
    /// `DecodeError` with the description from the first attempt.
    pub fn decode(
        success: core::result::Result<T, String>,
        error: core::result::Result<ErrorResponse, String>,
    ) -> (r: core::result::Result<Response<T>, Error>)
        ensures
            success matches Ok(t) ==> r == Ok::<Response<T>, Error>(Response::Success(t)),
            success is Err ==> (error matches Ok(e) ==> r == Ok::<Response<T>, Error>(
                Response::Error(e),
            )),
            success matches Err(why) ==> (error is Err ==> r == Err::<Response<T>, Error>(
                Error::DecodeError(why),
            )),
    {
        match success {
            Ok(t) => Ok(Response::Success(t)),
            Err(why) => match error {
                Ok(e) => Ok(Response::Error(e)),
                Err(_) => Err(Error::DecodeError(why)),
            },
        }
    }
}

} // verus!
