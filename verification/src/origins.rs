//! The origins that may call the site from another site's pages.

use vstd::prelude::*;

use crate::text::{copy_texts, field_value, is_field_value, same_text, text_of, texts};

verus! {

/// The wildcard, which stands for every origin and is no origin itself.
pub const WILDCARD: &'static str = "*";

/// Text that names one origin: tabs and printable ASCII alone, and not the
/// wildcard.
pub open spec fn is_origin(text: Seq<char>) -> bool {
    field_value(text) && text != WILDCARD@
}

/// The origin that is named back to a request: its own, if it is one of the
/// allowed origins, letter for letter.
pub open spec fn echo(allowed: Seq<Seq<char>>, origin: Option<Seq<char>>) -> Option<Seq<char>> {
    match origin {
        Some(o) => if allowed.contains(o) {
            Some(o)
        } else {
            None
        },
        None => None,
    }
}

/// Why a list of origins was turned down, with the place of the first entry
/// at fault.
#[derive(Clone, Copy, Debug, PartialEq, Eq, Structural)]
pub enum OriginError {
    /// The entry is the wildcard.
    Wildcard(usize),
    /// The entry holds something other than a tab or printable ASCII.
    Malformed(usize),
}

/// A list of allowed origins, each of them fit to be compared with the
/// `Origin` header of a request.
#[derive(Debug)]
pub struct AllowedOrigins {
    list: Vec<String>,
}

impl View for AllowedOrigins {
    type V = Seq<Seq<char>>;

    closed spec fn view(&self) -> Seq<Seq<char>> {
        texts(self.list@)
    }
}

impl Clone for AllowedOrigins {
    fn clone(&self) -> (copy: AllowedOrigins)
        ensures
            copy@ == self@,
    {
        proof {
            use_type_invariant(self);
        }
        let list = copy_texts(&self.list);
        assert forall|i: int| 0 <= i < list@.len() implies is_origin(#[trigger] list@[i]@) by {
            assert(texts(list@).len() == list@.len());
            assert(texts(self.list@).len() == self.list@.len());
            assert(texts(list@)[i] == list@[i]@);
            assert(texts(self.list@)[i] == self.list@[i]@);
        }
        AllowedOrigins { list }
    }
}

impl AllowedOrigins {
    #[verifier::type_invariant]
    spec fn well_formed(self) -> bool {
        forall|i: int| 0 <= i < self.list@.len() ==> is_origin(#[trigger] self.list@[i]@)
    }

    /// The list that allows no origin.
    pub fn new() -> (allowed: AllowedOrigins)
        ensures
            allowed@ == Seq::<Seq<char>>::empty(),
    {
        let allowed = AllowedOrigins { list: Vec::new() };
        assert(allowed@ =~= Seq::<Seq<char>>::empty());
        allowed
    }

    /// Takes `origins` as the allowed origins, if every entry names one.
    pub fn from_list(origins: Vec<String>) -> (result: Result<AllowedOrigins, OriginError>)
        ensures
            match result {
                Ok(allowed) => {
                    &&& allowed@ == texts(origins@)
                    &&& forall|i: int| 0 <= i < origins@.len() ==> is_origin(#[trigger] origins@[i]@)
                },
                Err(OriginError::Wildcard(at)) => {
                    &&& at < origins@.len()
                    &&& origins@[at as int]@ == WILDCARD@
                    &&& forall|i: int| 0 <= i < at ==> is_origin(#[trigger] origins@[i]@)
                },
                Err(OriginError::Malformed(at)) => {
                    &&& at < origins@.len()
                    &&& !field_value(origins@[at as int]@)
                    &&& forall|i: int| 0 <= i < at ==> is_origin(#[trigger] origins@[i]@)
                },
            },
    {
        let mut i: usize = 0;
        while i < origins.len()
            invariant
                i <= origins@.len(),
                forall|k: int| 0 <= k < i ==> is_origin(#[trigger] origins@[k]@),
            decreases origins@.len() - i,
        {
            if !is_field_value(origins[i].as_str()) {
                return Err(OriginError::Malformed(i));
            }
            if same_text(origins[i].as_str(), WILDCARD) {
                return Err(OriginError::Wildcard(i));
            }
            i += 1;
        }
        Ok(AllowedOrigins { list: origins })
    }

    /// How many origins are allowed.
    pub fn len(&self) -> (n: usize)
        ensures
            n == self@.len(),
    {
        self.list.len()
    }

    /// The allowed origins, in the order in which they were given.
    pub fn entries(&self) -> (list: &Vec<String>)
        ensures
            texts(list@) == self@,
            forall|i: int| 0 <= i < self@.len() ==> is_origin(#[trigger] self@[i]),
    {
        proof {
            use_type_invariant(self);
        }
        &self.list
    }

    /// Whether `origin` is one of the allowed origins, letter for letter.
    pub fn contains(&self, origin: &str) -> (found: bool)
        ensures
            found == self@.contains(origin@),
    {
        let mut i: usize = 0;
        while i < self.list.len()
            invariant
                i <= self.list@.len(),
                forall|k: int| 0 <= k < i ==> self.list@[k]@ != origin@,
            decreases self.list@.len() - i,
        {
            if same_text(self.list[i].as_str(), origin) {
                assert(self@[i as int] == origin@);
                return true;
            }
            i += 1;
        }
        assert(!self@.contains(origin@)) by {
            if self@.contains(origin@) {
                let k = choose|k: int| 0 <= k < self@.len() && self@[k] == origin@;
                assert(self.list@[k]@ == origin@);
            }
        }
        false
    }

    /// The origin that is named back to a request with the given `Origin`
    /// header: its own, if it is allowed. What is named back can be sent as a
    /// header value.
    pub fn echo(&self, origin: Option<String>) -> (back: Option<String>)
        ensures
            text_of(back) == echo(self@, text_of(origin)),
            back matches Some(o) ==> field_value(o@),
    {
        match origin {
            Some(o) => {
                if self.contains(o.as_str()) {
                    proof {
                        use_type_invariant(self);
                        let k = choose|k: int| 0 <= k < self@.len() && self@[k] == o@;
                        assert(self.list@[k]@ == o@);
                    }
                    Some(o)
                } else {
                    None
                }
            },
            None => None,
        }
    }
}

} // verus!
