//! Where the gateway is: the base address that every endpoint's address starts with. It is
//! set once; later attempts to set it change nothing.
use vstd::prelude::*;

verus! {

/// The base address after an attempt to set it to `url`: the first address set stays.
pub open spec fn after_initialize(current: Option<Seq<char>>, url: Seq<char>) -> Option<Seq<char>> {
    match current {
        Some(u) => Some(u),
        None => Some(url),
    }
}

/// Holds the gateway's base address once it is set.
pub struct BaseUrlCell {
    base_url: Option<String>,
}

impl View for BaseUrlCell {
    type V = Option<Seq<char>>;

    closed spec fn view(&self) -> Option<Seq<char>> {
        match self.base_url {
            Some(u) => Some(u@),
            None => None,
        }
    }
}

impl BaseUrlCell {
    /// No address set yet.
    pub fn new() -> (r: Self)
        ensures
            r@ is None,
    {
        BaseUrlCell { base_url: None }
    }

    /// Sets the base address, unless one was set before.
    pub fn initialize(&mut self, base_url: &str)
        ensures
            final(self)@ == after_initialize(old(self)@, base_url@),
    {
        if self.base_url.is_none() {
            self.base_url = Some(base_url.to_owned());
        }
    }

    /// Whether an address is set and is not empty, so that `base_url` may be asked.
    pub fn is_ready(&self) -> (r: bool)
        ensures
            r == (self@ matches Some(u) && u.len() > 0),
    {
        match &self.base_url {
            Some(u) => u.as_str().unicode_len() > 0,
            None => false,
        }
    }

    /// The base address.
    pub fn base_url(&self) -> (r: &str)
        requires
            self@ matches Some(u) && u.len() > 0,
        ensures
            Some(r@) == self@,
    {
        match &self.base_url {
            Some(u) => u.as_str(),
            None => "",
        }
    }
}

/// Setting the base address twice keeps the first: later calls of `initialize` change nothing.
pub proof fn lemma_first_initialization_wins(
    current: Option<Seq<char>>,
    first: Seq<char>,
    second: Seq<char>,
)
    ensures
        current is None ==> after_initialize(after_initialize(current, first), second) == Some(
            first,
        ),
        after_initialize(after_initialize(current, first), second) == after_initialize(
            current,
            first,
        ),
{
}

} // verus!
