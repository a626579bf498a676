//! The register: a single slot that holds the text yanked last.

use vstd::prelude::*;

verus! {

/// The register. It holds at most one text, the one yanked last, and
/// keeps it until the next yank.
pub struct Yanker {
    line: Option<String>,
}

impl View for Yanker {
    type V = Option<Seq<char>>;

    /// The held text, if any text was yanked yet.
    closed spec fn view(&self) -> Option<Seq<char>> {
        match self.line {
            Some(s) => Some(s@),
            None => None,
        }
    }
}

impl Yanker {
    /// A register that holds nothing.
    pub fn new() -> (r: Self)
        ensures
            r@ is None,
    {
        Self { line: None }
    }

    /// Stores `content`, replacing whatever was held.
    pub fn yank(&mut self, content: String)
        ensures
            final(self)@ == Some(content@),
    {
        self.line = Some(content);
    }

    /// The held text, or `None` if nothing was yanked yet.
    pub fn get_content(&self) -> (r: &Option<String>)
        ensures
            r is Some <==> self@ is Some,
            r matches Some(s) ==> self@ == Some(s@),
    {
        &self.line
    }
}

} // verus!
