//! An ordered list of header name/value pairs, and the credentials a proxy
//! may ask for.
use vstd::prelude::*;
use crate::uri::str_eq;
use headers::authorization::Credentials;

verus! {

/// The view of a header list: the name and value of each entry, in order, as
/// character sequences.
pub open spec fn headers_view(s: Seq<(String, String)>) -> Seq<(Seq<char>, Seq<char>)> {
    s.map(|i: int, p: (String, String)| (p.0@, p.1@))
}

/// The given header sequence with every entry of the given name removed;
/// order of the remaining entries is kept.
pub open spec fn remove_name(
    s: Seq<(Seq<char>, Seq<char>)>,
    name: Seq<char>,
) -> Seq<(Seq<char>, Seq<char>)>
    decreases s.len(),
{
    if s.len() == 0 {
        s
    } else if s.last().0 == name {
        remove_name(s.drop_last(), name)
    } else {
        remove_name(s.drop_last(), name).push(s.last())
    }
}

/// The given header sequence after setting `name` to `value`: every earlier
/// entry of that name is dropped and the new pair appended.
pub open spec fn inserted(
    s: Seq<(Seq<char>, Seq<char>)>,
    name: Seq<char>,
    value: Seq<char>,
) -> Seq<(Seq<char>, Seq<char>)> {
    remove_name(s, name).push((name, value))
}

/// An ordered list of header name/value pairs. Setting a name drops earlier
/// entries of the same name; names are kept verbatim as given.
#[derive(Debug)]
pub struct Headers {
    pub entries: Vec<(String, String)>,
}

impl View for Headers {
    type V = Seq<(Seq<char>, Seq<char>)>;

    open spec fn view(&self) -> Seq<(Seq<char>, Seq<char>)> {
        headers_view(self.entries@)
    }
}

impl Headers {
    /// An empty header list.
    pub fn new() -> (r: Headers)
        ensures
            r@ == Seq::<(Seq<char>, Seq<char>)>::empty(),
    {
        let entries: Vec<(String, String)> = Vec::new();
        proof {
            assert(headers_view(entries@) =~= Seq::<(Seq<char>, Seq<char>)>::empty());
        }
        Headers { entries }
    }

    /// How many entries the list holds.
    pub fn len(&self) -> (r: usize)
        ensures
            r == self@.len(),
    {
        self.entries.len()
    }

    /// The name and value of the entry at `i`.
    pub fn entry_at(&self, i: usize) -> (r: (&str, &str))
        requires
            i < self@.len(),
        ensures
            r.0@ == self@[i as int].0,
            r.1@ == self@[i as int].1,
    {
        let e = &self.entries[i];
        (e.0.as_str(), e.1.as_str())
    }

    /// Sets `name` to `value`: removes every entry already carrying that
    /// name (compared verbatim) and appends the new pair.
    pub fn insert(&mut self, name: String, value: String)
        ensures
            final(self)@ == inserted(old(self)@, name@, value@),
    {
        let mut out: Vec<(String, String)> = Vec::new();
        let n = self.entries.len();
        let mut i: usize = 0;
        proof {
            assert(self.entries@.take(0) =~= Seq::<(String, String)>::empty());
            assert(headers_view(self.entries@.take(0)) =~= Seq::<(Seq<char>, Seq<char>)>::empty());
        }
        while i < n
            invariant
                i <= n,
                n == self.entries.len(),
                self.entries@ == old(self).entries@,
                headers_view(out@) == remove_name(
                    headers_view(self.entries@.take(i as int)),
                    name@,
                ),
            decreases n - i,
        {
            let e = &self.entries[i];
            let ghost prev = headers_view(out@);
            if !str_eq(e.0.as_str(), name.as_str()) {
                out.push((e.0.clone(), e.1.clone()));
            }
            proof {
                let s_i = headers_view(self.entries@.take(i as int));
                let s_i1 = headers_view(self.entries@.take(i as int + 1));
                assert(s_i1.drop_last() =~= s_i);
                assert(s_i1.last() == (self.entries@[i as int].0@, self.entries@[i as int].1@));
                if self.entries@[i as int].0@ == name@ {
                    assert(headers_view(out@) == remove_name(s_i1, name@));
                } else {
                    assert(headers_view(out@) =~= prev.push(s_i1.last()));
                    assert(headers_view(out@) == remove_name(s_i1, name@));
                }
            }
            i += 1;
        }
        proof {
            assert(self.entries@.take(n as int) =~= self.entries@);
        }
        out.push((name, value));
        self.entries = out;
        proof {
            assert(headers_view(self.entries@) =~= headers_view(self.entries@.drop_last()).push(
                (self.entries@.last().0@, self.entries@.last().1@),
            ));
        }
    }

    /// All entries, in order.
    pub fn entries(&self) -> (r: &Vec<(String, String)>)
        ensures
            headers_view(r@) == self@,
    {
        &self.entries
    }
}

impl Clone for Headers {
    /// The copy holds the same entries in the same order.
    fn clone(&self) -> (r: Headers)
        ensures
            r@ == self@,
    {
        let mut out: Vec<(String, String)> = Vec::new();
        let n = self.entries.len();
        let mut i: usize = 0;
        while i < n
            invariant
                i <= n,
                n == self.entries.len(),
                out@.len() == i,
                forall|j: int|
                    0 <= j < i ==> out@[j].0@ == self.entries@[j].0@ && out@[j].1@
                        == self.entries@[j].1@,
            decreases n - i,
        {
            let e = &self.entries[i];
            out.push((e.0.clone(), e.1.clone()));
            i += 1;
        }
        proof {
            assert(headers_view(out@) =~= headers_view(self.entries@));
        }
        Headers { entries: out }
    }
}

/// The header value that carries HTTP basic credentials for the given user
/// name and password: the result depends on the two strings alone.
pub uninterp spec fn basic_auth_of(user: Seq<char>, pass: Seq<char>) -> Seq<char>;

/// Relies on `headers::Authorization::basic` and
/// `headers::authorization::Credentials::encode`: the value is `Basic `
/// followed by the base64 encoding of `user:pass`, a function of the two
/// arguments alone, and always visible ASCII.
#[verifier::external_body]
pub(crate) fn basic_auth_header_value(user: &str, pass: &str) -> (r: String)
    ensures
        r@ == basic_auth_of(user@, pass@),
{
    let auth = headers::Authorization::basic(user, pass);
    let value = auth.0.encode();
    value.to_str().expect("the encoded value is ASCII").to_string()
}

} // verus!
