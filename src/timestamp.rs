use vstd::prelude::*;

verus! {

/// `s` has the outline of RFC 3339 text: a date and a time of day (at least
/// 19 characters), then the UTC offset as `Z` or as `+HH:MM` / `-HH:MM`.
pub open spec fn is_rfc3339_text(s: Seq<char>) -> bool {
    &&& s.len() >= 20
    &&& (s.last() == 'Z' || s[s.len() - 3] == ':')
}

/// A moment of creation, held as its RFC 3339 text (with the UTC offset of the
/// place where it was taken), which is also the form it is stored in.
pub struct Timestamp {
    text: String,
}

impl View for Timestamp {
    type V = Seq<char>;

    closed spec fn view(&self) -> Seq<char> {
        self.text@
    }
}

/// Relies on chrono's `Local::now` and `DateTime::to_rfc3339_opts`: the local
/// time now, written as `YYYY-MM-DDTHH:MM:SS`, an optional fraction of a
/// second, then `Z` for a zero offset or `+HH:MM` / `-HH:MM`.
#[verifier::external_body]
fn local_now_text() -> (r: String)
    ensures
        is_rfc3339_text(r@),
{
    chrono::Local::now().to_rfc3339_opts(chrono::SecondsFormat::AutoSi, true)
}

impl Timestamp {
    /// Every timestamp's text has the outline of RFC 3339 text.
    #[verifier::type_invariant]
    spec fn well_formed(&self) -> bool {
        is_rfc3339_text(self.text@)
    }

    /// The local time now.
    pub fn now() -> (r: Timestamp)
        ensures
            is_rfc3339_text(r@),
    {
        Timestamp { text: local_now_text() }
    }

    /// The moment that `text` names, where `text` has the outline of RFC 3339
    /// text; none otherwise.
    pub fn from_text(text: String) -> (r: Option<Timestamp>)
        ensures
            r is Some <==> is_rfc3339_text(text@),
            r matches Some(t) ==> t@ == text@,
    {
        let n = text.as_str().unicode_len();
        if n < 20 {
            return None;
        }
        let last = text.as_str().get_char(n - 1);
        let colon = text.as_str().get_char(n - 3);
        if last == 'Z' || colon == ':' {
            Some(Timestamp { text })
        } else {
            None
        }
    }

    /// The RFC 3339 text of this moment.
    pub fn as_str(&self) -> (r: &str)
        ensures
            r@ == self@,
            is_rfc3339_text(r@),
    {
        proof {
            use_type_invariant(self);
        }
        self.text.as_str()
    }
}

} // verus!
