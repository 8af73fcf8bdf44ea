//! The first cupom route: its request, its response and its errors.

use vstd::prelude::*;
use vstd::string::*;

verus! {

/// The body of the request.
#[derive(Debug, PartialEq, Eq)]
pub struct CupomRequest {
    pub code: String,
}

/// The body of the response.
#[derive(Debug, PartialEq, Eq)]
pub struct CupomResponse {
    pub id: i32,
    pub code: String,
}

/// Why the route failed, with the message for the caller.
#[derive(Debug, PartialEq, Eq)]
pub enum CupomError {
    GenericError(String),
    UnexpectedError(String),
}

impl CupomError {
    /// The status that answers the failed request.
    pub fn status_code(&self) -> (status: u16)
        ensures
            status == match *self {
                CupomError::GenericError(_) => 400u16,
                CupomError::UnexpectedError(_) => 500u16,
            },
    {
        match self {
            CupomError::GenericError(_) => 400,
            CupomError::UnexpectedError(_) => 500,
        }
    }
}

/// The texts of the causes, in order.
pub open spec fn texts(causes: Seq<String>) -> Seq<Seq<char>> {
    causes.map_values(|cause: String| cause@)
}

/// An error with the chain of its causes, as text: the message and an empty
/// line, then for each cause a line `Caused by:` and the cause on a line of
/// its own, behind a tab.
pub open spec fn chain_text(message: Seq<char>, causes: Seq<Seq<char>>) -> Seq<char>
    decreases causes.len(),
{
    if causes.len() == 0 {
        message + "\n\n"@
    } else {
        chain_text(message, causes.drop_last()) + "Caused by:\n\t"@ + causes.last() + "\n"@
    }
}

/// Writes an error and the chain of its causes, outermost first.
pub fn error_chain_fmt(message: &str, causes: &Vec<String>) -> (out: String)
    ensures
        out@ == chain_text(message@, texts(causes@)),
{
    let mut out = String::from_str(message).concat("\n\n");
    let mut i: usize = 0;
    assert(texts(causes@).take(0) =~= Seq::<Seq<char>>::empty());
    while i < causes.len()
        invariant
            i <= causes.len(),
            out@ == chain_text(message@, texts(causes@).take(i as int)),
        decreases causes.len() - i,
    {
        let ghost before = out@;
        out.append("Caused by:\n\t");
        out.append(causes[i].as_str());
        out.append("\n");
        proof {
            let upto = texts(causes@).take(i + 1);
            assert(upto.drop_last() =~= texts(causes@).take(i as int));
            assert(upto.last() == causes@[i as int]@);
            assert(out@ =~= before + "Caused by:\n\t"@ + causes@[i as int]@ + "\n"@);
        }
        i = i + 1;
    }
    assert(texts(causes@).take(i as int) =~= texts(causes@));
    out
}

} // verus!
