use vstd::prelude::*;

verus! {

/// The name the earbuds advertise; picked when no device is asked for.
pub const DEFAULT_DEVICE_NAME: &'static str = "WF-1000XM5";

/// A character with ASCII upper case turned to lower case.
pub open spec fn ascii_lower(c: char) -> char {
    if 'A' <= c && c <= 'Z' {
        (((c as u8) + 32) as u8) as char
    } else {
        c
    }
}

/// A text with ASCII upper case turned to lower case.
pub open spec fn lower(s: Seq<char>) -> Seq<char> {
    s.map_values(|c: char| ascii_lower(c))
}

/// Whether `needle` occurs in `hay`.
pub open spec fn has_substring(hay: Seq<char>, needle: Seq<char>) -> bool {
    exists|i: int|
        0 <= i && i + needle.len() <= hay.len() && #[trigger] hay.subrange(i, i + needle.len())
            == needle
}

/// Whether a device with optional name `name` and address `address` is the
/// one asked for. A hint holding a colon is an address, matched whole; any
/// other hint is matched as part of the name; both without regard to ASCII
/// case. Without a hint, a device matches when its name holds the default
/// name. A device without a name matches no name.
pub open spec fn spec_device_matches(
    hint: Option<Seq<char>>,
    name: Option<Seq<char>>,
    address: Seq<char>,
) -> bool {
    match hint {
        Some(h) => if lower(h).contains(':') {
            lower(address) == lower(h)
        } else {
            match name {
                Some(n) => has_substring(lower(n), lower(h)),
                None => false,
            }
        },
        None => match name {
            Some(n) => has_substring(n, DEFAULT_DEVICE_NAME@),
            None => false,
        },
    }
}

fn lower_char(c: char) -> (l: char)
    ensures
        l == ascii_lower(c),
{
    if 'A' <= c && c <= 'Z' {
        ((c as u8) + 32) as char
    } else {
        c
    }
}

/// The characters of `s`, ASCII upper case turned to lower case.
fn lowered(s: &str) -> (out: Vec<char>)
    ensures
        out@ == lower(s@),
{
    let n = s.unicode_len();
    let mut out: Vec<char> = Vec::new();
    let mut i: usize = 0;
    while i < n
        invariant
            i <= n,
            n == s@.len(),
            out@ == lower(s@.take(i as int)),
        decreases n - i,
    {
        out.push(lower_char(s.get_char(i)));
        assert(lower(s@.take(i + 1)) =~= lower(s@.take(i as int)).push(ascii_lower(s@[i as int])));
        i = i + 1;
    }
    assert(s@.take(n as int) =~= s@);
    out
}

/// The characters of `s`.
fn chars_of(s: &str) -> (out: Vec<char>)
    ensures
        out@ == s@,
{
    let n = s.unicode_len();
    let mut out: Vec<char> = Vec::new();
    let mut i: usize = 0;
    while i < n
        invariant
            i <= n,
            n == s@.len(),
            out@ == s@.take(i as int),
        decreases n - i,
    {
        out.push(s.get_char(i));
        assert(s@.take(i + 1) =~= s@.take(i as int).push(s@[i as int]));
        i = i + 1;
    }
    assert(s@.take(n as int) =~= s@);
    out
}

fn same_chars(a: &Vec<char>, b: &Vec<char>) -> (eq: bool)
    ensures
        eq == (a@ == b@),
{
    if a.len() != b.len() {
        return false;
    }
    let mut i: usize = 0;
    while i < a.len()
        invariant
            i <= a@.len(),
            a@.len() == b@.len(),
            forall|j: int| 0 <= j < i ==> a@[j] == b@[j],
        decreases a@.len() - i,
    {
        if a[i] != b[i] {
            return false;
        }
        i = i + 1;
    }
    assert(a@ =~= b@);
    true
}

fn has_char(a: &Vec<char>, c: char) -> (found: bool)
    ensures
        found == a@.contains(c),
{
    let mut i: usize = 0;
    while i < a.len()
        invariant
            i <= a@.len(),
            forall|j: int| 0 <= j < i ==> a@[j] != c,
        decreases a@.len() - i,
    {
        if a[i] == c {
            return true;
        }
        i = i + 1;
    }
    false
}

fn window_matches(hay: &Vec<char>, at: usize, needle: &Vec<char>) -> (eq: bool)
    requires
        at + needle@.len() <= hay@.len(),
    ensures
        eq == (hay@.subrange(at as int, at + needle@.len()) == needle@),
{
    let hl = hay.len();
    let mut j: usize = 0;
    while j < needle.len()
        invariant
            j <= needle@.len(),
            hl == hay@.len(),
            at + needle@.len() <= hay@.len(),
            forall|k: int| 0 <= k < j ==> hay@[at + k] == needle@[k],
        decreases needle@.len() - j,
    {
        if hay[at + j] != needle[j] {
            assert(hay@.subrange(at as int, at + needle@.len())[j as int] != needle@[j as int]);
            return false;
        }
        j = j + 1;
    }
    assert(hay@.subrange(at as int, at + needle@.len()) =~= needle@);
    true
}

fn contains_chars(hay: &Vec<char>, needle: &Vec<char>) -> (found: bool)
    ensures
        found == has_substring(hay@, needle@),
{
    let hl = hay.len();
    let nl = needle.len();
    if nl > hl {
        return false;
    }
    if nl == 0 {
        assert(hay@.subrange(0, 0 + needle@.len() as int) =~= needle@);
        return true;
    }
    let mut i: usize = 0;
    while i <= hl - nl
        invariant
            hl == hay@.len(),
            nl == needle@.len(),
            1 <= nl <= hl,
            i <= hl - nl + 1,
            forall|k: int|
                0 <= k < i ==> #[trigger] hay@.subrange(k, k + needle@.len()) != needle@,
        decreases hl - nl + 1 - i,
    {
        if window_matches(hay, i, needle) {
            return true;
        }
        i = i + 1;
    }
    false
}

/// Decides whether a device is the one asked for; see `spec_device_matches`.
pub fn device_matches(hint: Option<&str>, name: Option<&str>, address: &str) -> (m: bool)
    ensures
        m == spec_device_matches(
            match hint {
                Some(h) => Some(h@),
                None => None,
            },
            match name {
                Some(n) => Some(n@),
                None => None,
            },
            address@,
        ),
{
    match hint {
        Some(h) => {
            let hint_lower = lowered(h);
            if has_char(&hint_lower, ':') {
                let address_lower = lowered(address);
                same_chars(&address_lower, &hint_lower)
            } else {
                match name {
                    Some(n) => contains_chars(&lowered(n), &hint_lower),
                    None => false,
                }
            }
        },
        None => match name {
            Some(n) => contains_chars(&chars_of(n), &chars_of(DEFAULT_DEVICE_NAME)),
            None => false,
        },
    }
}

proof fn lemma_ascii_lower_char(c: char)
    ensures
        ascii_lower(ascii_lower(c)) == ascii_lower(c),
        (ascii_lower(c) == ':') == (c == ':'),
{
    if 'A' <= c && c <= 'Z' {
        assert((c as u8) as int == c as int);
        assert((((c as u8) + 32) as u8) as int == c as int + 32);
    }
}

proof fn lemma_lower(s: Seq<char>)
    ensures
        lower(lower(s)) == lower(s),
        lower(s).contains(':') == s.contains(':'),
        lower(s).len() == s.len(),
{
    assert forall|i: int| 0 <= i < s.len() implies #[trigger] lower(lower(s))[i] == lower(s)[i]
        && (lower(s)[i] == ':') == (s[i] == ':') by {
        lemma_ascii_lower_char(s[i]);
    }
    assert(lower(lower(s)) =~= lower(s));
    if s.contains(':') {
        let i = choose|i: int| 0 <= i < s.len() && s[i] == ':';
        assert(lower(s)[i] == ':');
    }
    if lower(s).contains(':') {
        let i = choose|i: int| 0 <= i < lower(s).len() && lower(s)[i] == ':';
        assert(s[i] == ':');
    }
}

proof fn lemma_has_itself(s: Seq<char>)
    ensures
        has_substring(s, s),
{
    assert(s.subrange(0, 0 + s.len() as int) =~= s);
}

/// Device selection ignores ASCII case: in the hint, in the name and in the
/// address, a text selects the same devices as its lower-case form.
pub proof fn law_device_match_ignores_case(
    hint: Option<Seq<char>>,
    name: Option<Seq<char>>,
    address: Seq<char>,
)
    ensures
        spec_device_matches(hint, name, address) == spec_device_matches(
            match hint {
                Some(h) => Some(lower(h)),
                None => None,
            },
            name,
            address,
        ),
        hint is Some ==> spec_device_matches(hint, name, address) == spec_device_matches(
            hint,
            match name {
                Some(n) => Some(lower(n)),
                None => None,
            },
            address,
        ),
        spec_device_matches(hint, name, address) == spec_device_matches(
            hint,
            name,
            lower(address),
        ),
{
    lemma_lower(address);
    if let Some(h) = hint {
        lemma_lower(h);
    }
    if let Some(n) = name {
        lemma_lower(n);
    }
}

/// A hint that is a device's whole name selects it, in whatever case either is
/// written, and a hint that is its whole address (with colons) selects it too;
/// without a hint, a device named with the default name is selected.
pub proof fn law_device_selected_by_its_name_or_address(n: Seq<char>, address: Seq<char>)
    ensures
        !n.contains(':') ==> spec_device_matches(Some(n), Some(n), address),
        !n.contains(':') ==> spec_device_matches(Some(lower(n)), Some(n), address),
        address.contains(':') ==> spec_device_matches(Some(address), None, address),
        spec_device_matches(None, Some(DEFAULT_DEVICE_NAME@), address),
{
    lemma_lower(n);
    lemma_lower(address);
    lemma_has_itself(lower(n));
    lemma_has_itself(DEFAULT_DEVICE_NAME@);
}

} // verus!
