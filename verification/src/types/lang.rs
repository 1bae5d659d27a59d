//! The language preference sent with a start-chat request.

use vstd::prelude::*;

verus! {

/// A language the service can be asked to pair within.
#[derive(Debug, Clone, Copy)]
pub enum LangCode {
    English,
    French,
    Spanish,
}

/// The two-letter code of each language on the wire.
pub open spec fn lang_code_chars(l: LangCode) -> Seq<char> {
    match l {
        LangCode::English => "en"@,
        LangCode::French => "fr"@,
        LangCode::Spanish => "es"@,
    }
}

impl LangCode {
    /// The two-letter code sent to the service.
    pub fn code(&self) -> (r: &'static str)
        ensures
            r@ == lang_code_chars(*self),
    {
        match self {
            LangCode::English => "en",
            LangCode::French => "fr",
            LangCode::Spanish => "es",
        }
    }
}

} // verus!
