//! Configured web APIs and the PKCE-style authentication request: the random
//! state, the code challenge, the query text and the check of the returned state.
use crate::legacy::source::{before_first_dot, stem_of};
use crate::requests::yt::{pair_views, params_map};
use crate::text::{chars_of, digit_char, push_char, push_str, string_from, text_is};
use base64::Engine as _;
use rand::Rng;
use sha2::Digest;
use vstd::prelude::*;
use vstd::utf8::{encode_utf8, is_ascii_chars};

verus! {

// ---------------------------------------------------------------------------
// Outside computations
// ---------------------------------------------------------------------------

/// The SHA-256 digest of the bytes, as `sha2` computes it.
pub uninterp spec fn sha256_of(data: Seq<u8>) -> Seq<u8>;

/// The character of a 6-bit value in the standard Base64 alphabet: `A` to `Z`,
/// `a` to `z`, `0` to `9`, `+` and `/`.
pub open spec fn base64_char(n: int) -> char {
    if n < 26 {
        (65 + n) as char
    } else if n < 52 {
        (97 + (n - 26)) as char
    } else if n < 62 {
        (48 + (n - 52)) as char
    } else if n == 62 {
        '+'
    } else {
        '/'
    }
}

/// The standard padded Base64 text of the bytes (RFC 4648, section 4): each group
/// of three bytes becomes four characters of six bits each; a last group of one or
/// two bytes is filled with zero bits and padded with `=` to four characters.
pub open spec fn base64_standard_of(data: Seq<u8>) -> Seq<char>
    decreases data.len(),
{
    if data.len() == 0 {
        Seq::empty()
    } else if data.len() == 1 {
        let a = data[0] as int;
        seq![base64_char(a / 4), base64_char((a % 4) * 16), '=', '=']
    } else if data.len() == 2 {
        let a = data[0] as int;
        let b = data[1] as int;
        seq![base64_char(a / 4), base64_char((a % 4) * 16 + b / 16), base64_char((b % 16) * 4), '=']
    } else {
        let a = data[0] as int;
        let b = data[1] as int;
        let c = data[2] as int;
        seq![
            base64_char(a / 4),
            base64_char((a % 4) * 16 + b / 16),
            base64_char((b % 16) * 4 + c / 64),
            base64_char(c % 64),
        ] + base64_standard_of(data.skip(3))
    }
}

/// `sha2::Sha256` over the bytes; the contract names the digest and states its
/// length of 32 bytes.
#[verifier::external_body]
fn sha256_digest(data: &[u8]) -> (r: Vec<u8>)
    ensures
        r@ == sha256_of(data@),
        r@.len() == 32,
{
    let mut encoder = sha2::Sha256::new();
    encoder.update(data);
    encoder.finalize().to_vec()
}

/// `base64::engine::general_purpose::STANDARD.encode`: the contract states the
/// standard padded Base64 text of the bytes (see [`base64_standard_of`]). The engine
/// panics when the encoded length overflows `usize`, which the
/// precondition rules out.
#[verifier::external_body]
fn base64_standard(data: &[u8]) -> (r: String)
    requires
        (data@.len() / 3) * 4 + 4 <= usize::MAX,
    ensures
        r@ == base64_standard_of(data@),
{
    base64::engine::general_purpose::STANDARD.encode(data)
}

/// A number drawn at random from `0..upper` (`rand`'s `random_range` on the
/// thread-local generator, which panics on an empty range). Only that the number
/// lies in the range is claimed.
#[verifier::external_body]
fn random_below(upper: usize) -> (r: usize)
    requires
        upper > 0,
    ensures
        r < upper,
{
    rand::rng().random_range(0..upper)
}

// ---------------------------------------------------------------------------
// Text helpers
// ---------------------------------------------------------------------------

/// The lowercase hexadecimal digit of `n` (0 through 15).
pub open spec fn hex_digit(n: int) -> char {
    if n < 10 {
        digit_char(n)
    } else if n == 10 {
        'a'
    } else if n == 11 {
        'b'
    } else if n == 12 {
        'c'
    } else if n == 13 {
        'd'
    } else if n == 14 {
        'e'
    } else {
        'f'
    }
}

/// The lowercase hexadecimal text of the bytes, two digits per byte.
pub open spec fn hex_lower(b: Seq<u8>) -> Seq<char>
    decreases b.len(),
{
    if b.len() == 0 {
        Seq::empty()
    } else {
        hex_lower(b.drop_last()) + seq![hex_digit((b.last() / 16) as int), hex_digit((b.last() % 16) as int)]
    }
}

fn hex_char(n: u8) -> (c: char)
    requires
        n < 16,
    ensures
        c == hex_digit(n as int),
{
    match n {
        0 => '0',
        1 => '1',
        2 => '2',
        3 => '3',
        4 => '4',
        5 => '5',
        6 => '6',
        7 => '7',
        8 => '8',
        9 => '9',
        10 => 'a',
        11 => 'b',
        12 => 'c',
        13 => 'd',
        14 => 'e',
        _ => 'f',
    }
}

/// The lowercase hexadecimal text of the bytes.
pub fn to_hex_lower(b: &Vec<u8>) -> (r: String)
    ensures
        r@ == hex_lower(b@),
{
    let mut s = String::new();
    let mut i: usize = 0;
    while i < b.len()
        invariant
            i <= b@.len(),
            s@ == hex_lower(b@.subrange(0, i as int)),
        decreases b@.len() - i,
    {
        let x = b[i];
        push_char(&mut s, hex_char(x / 16));
        push_char(&mut s, hex_char(x % 16));
        assert(b@.subrange(0, i + 1).drop_last() =~= b@.subrange(0, i as int));
        i = i + 1;
    }
    assert(b@.subrange(0, b@.len() as int) =~= b@);
    s
}

/// The characters random strings are made of: letters and digits.
pub open spec fn in_charset(c: char) -> bool {
    ('A' <= c && c <= 'Z') || ('a' <= c && c <= 'z') || ('0' <= c && c <= '9')
}

/// The `i`-th character of the alphabet random texts are drawn from: `A` to `Z`,
/// then `a` to `z`, then `0` to `9` (62 characters).
pub open spec fn charset_at(i: int) -> char {
    if i < 26 {
        (65 + i) as char
    } else if i < 52 {
        (97 + (i - 26)) as char
    } else {
        (48 + (i - 52)) as char
    }
}

/// Every character of the alphabet is a letter or a digit.
pub proof fn lemma_charset_at(i: int)
    requires
        0 <= i < 62,
    ensures
        in_charset(charset_at(i)),
{
}

/// The character at position `i` of the alphabet.
fn charset_char(i: usize) -> (c: char)
    requires
        i < 62,
    ensures
        c == charset_at(i as int),
{
    if i < 26 {
        ((65 + i) as u8) as char
    } else if i < 52 {
        ((97 + (i - 26)) as u8) as char
    } else {
        ((48 + (i - 52)) as u8) as char
    }
}

/// Draws that each pick one of the 62 characters of the alphabet.
pub open spec fn valid_draws(draws: Seq<usize>) -> bool {
    forall|k: int| 0 <= k < draws.len() ==> #[trigger] draws[k] < 62
}

/// The text a list of draws makes: the alphabet's character of each draw, in order.
pub open spec fn text_of_draws(draws: Seq<usize>) -> Seq<char> {
    Seq::new(draws.len(), |k: int| charset_at(draws[k] as int))
}

/// The text a list of draws makes (see [`text_of_draws`]).
pub fn text_from_draws(draws: &Vec<usize>) -> (r: String)
    requires
        valid_draws(draws@),
    ensures
        r@ == text_of_draws(draws@),
        forall|i: int| 0 <= i < r@.len() ==> in_charset(#[trigger] r@[i]),
{
    let mut s = String::new();
    let mut k: usize = 0;
    while k < draws.len()
        invariant
            k <= draws@.len(),
            valid_draws(draws@),
            s@ == text_of_draws(draws@.subrange(0, k as int)),
        decreases draws@.len() - k,
    {
        assert(draws@[k as int] < 62);
        push_char(&mut s, charset_char(draws[k]));
        k = k + 1;
        assert(s@ =~= text_of_draws(draws@.subrange(0, k as int)));
    }
    assert(draws@.subrange(0, draws@.len() as int) =~= draws@);
    assert forall|i: int| 0 <= i < s@.len() implies in_charset(#[trigger] s@[i]) by {
        lemma_charset_at(draws@[i] as int);
    }
    s
}

// ---------------------------------------------------------------------------
// Parameters
// ---------------------------------------------------------------------------

/// Position `p` holds the first entry named `k`.
pub open spec fn is_first_key(s: Seq<(Seq<char>, Seq<char>)>, k: Seq<char>, p: int) -> bool {
    &&& 0 <= p < s.len()
    &&& s[p].0 == k
    &&& forall|j: int| 0 <= j < p ==> #[trigger] s[j].0 != k
}

/// The parameters after setting `k` to `v`: the first entry named `k` takes the
/// value, or the pair is appended when there is none.
pub open spec fn param_set(s: Seq<(Seq<char>, Seq<char>)>, k: Seq<char>, v: Seq<char>) -> Seq<(Seq<char>, Seq<char>)> {
    if exists|p: int| is_first_key(s, k, p) {
        let p = choose|p: int| is_first_key(s, k, p);
        s.update(p, (k, v))
    } else {
        s.push((k, v))
    }
}

/// Only one position holds the first entry named `k`.
pub proof fn lemma_first_key_unique(s: Seq<(Seq<char>, Seq<char>)>, k: Seq<char>, p: int, q: int)
    requires
        is_first_key(s, k, p),
        is_first_key(s, k, q),
    ensures
        p == q,
{
    if p < q {
        assert(s[p].0 != k);
    } else if q < p {
        assert(s[q].0 != k);
    }
}

/// An entry named `k` means there is a first one.
pub proof fn lemma_first_key_exists(s: Seq<(Seq<char>, Seq<char>)>, k: Seq<char>, j: int)
    requires
        0 <= j < s.len(),
        s[j].0 == k,
    ensures
        exists|p: int| is_first_key(s, k, p),
    decreases j,
{
    if forall|i: int| 0 <= i < j ==> #[trigger] s[i].0 != k {
        assert(is_first_key(s, k, j));
    } else {
        let i = choose|i: int| 0 <= i < j && #[trigger] s[i].0 == k;
        lemma_first_key_exists(s, k, i);
    }
}

/// Setting a parameter twice keeps the later value and nothing of the earlier one.
pub proof fn law_param_set_twice(s: Seq<(Seq<char>, Seq<char>)>, k: Seq<char>, v1: Seq<char>, v2: Seq<char>)
    ensures
        param_set(param_set(s, k, v1), k, v2) == param_set(s, k, v2),
{
    let once = param_set(s, k, v1);
    if exists|p: int| is_first_key(s, k, p) {
        let p = choose|p: int| is_first_key(s, k, p);
        assert(once == s.update(p, (k, v1)));
        assert forall|j: int| 0 <= j < p implies #[trigger] once[j].0 != k by {
            assert(once[j] == s[j]);
        }
        assert(is_first_key(once, k, p));
        let q = choose|q: int| is_first_key(once, k, q);
        lemma_first_key_unique(once, k, p, q);
        assert(once.update(p, (k, v2)) =~= s.update(p, (k, v2)));
    } else {
        let n = s.len() as int;
        assert(once == s.push((k, v1)));
        assert forall|j: int| 0 <= j < n implies #[trigger] once[j].0 != k by {
            assert(once[j] == s[j]);
            if s[j].0 == k {
                lemma_first_key_exists(s, k, j);
            }
        }
        assert(is_first_key(once, k, n));
        let q = choose|q: int| is_first_key(once, k, q);
        lemma_first_key_unique(once, k, n, q);
        assert(once.update(n, (k, v2)) =~= s.push((k, v2)));
    }
}

/// Sets the parameter `key` to `value` (see [`param_set`]).
pub fn insert_param(params: &mut Vec<(String, String)>, key: String, value: String)
    ensures
        pair_views(final(params)@) == param_set(pair_views(old(params)@), key@, value@),
        unique_keys(pair_views(old(params)@)) ==> unique_keys(pair_views(final(params)@)),
{
    proof {
        if unique_keys(pair_views(params@)) {
            lemma_param_set_unique(pair_views(params@), key@, value@);
        }
    }
    let ghost pv = pair_views(params@);
    let mut i: usize = 0;
    while i < params.len()
        invariant
            i <= params@.len(),
            params@ == old(params)@,
            pv == pair_views(params@),
            forall|j: int| 0 <= j < i ==> #[trigger] params@[j].0@ != key@,
        decreases params@.len() - i,
    {
        if params[i].0 == key {
            let (k, _) = params.remove(i);
            params.insert(i, (k, value));
            proof {
                assert(is_first_key(pv, key@, i as int));
                assert forall|q: int| is_first_key(pv, key@, q) implies q == i by {
                    if q < i {
                        assert(pv[q].0 != key@);
                    } else if i < q {
                        assert(pv[i as int].0 != key@);
                    }
                }
                assert(pair_views(params@) =~= pv.update(i as int, (key@, value@)));
            }
            return;
        }
        i = i + 1;
    }
    params.push((key, value));
    proof {
        assert forall|q: int| !is_first_key(pv, key@, q) by {
            if 0 <= q < pv.len() {
                assert(pv[q].0 == params@[q].0@);
            }
        }
        assert(pair_views(params@) =~= pv.push((key@, value@)));
    }
}

/// No two entries have the same name.
pub open spec fn unique_keys(s: Seq<(Seq<char>, Seq<char>)>) -> bool {
    forall|i: int, j: int| 0 <= i < j < s.len() ==> #[trigger] s[i].0 != #[trigger] s[j].0
}

/// The map a parameter list stands for holds exactly its names, each with the value
/// of its last entry.
pub proof fn lemma_params_map(s: Seq<(Seq<char>, Seq<char>)>)
    ensures
        forall|key: Seq<char>|
            #[trigger] params_map(s).dom().contains(key) <==> exists|i: int| 0 <= i < s.len() && s[i].0 == key,
        forall|i: int|
            0 <= i < s.len() && (forall|j: int| i < j < s.len() ==> #[trigger] s[j].0 != s[i].0) ==> params_map(
                s,
            )[#[trigger] s[i].0] == s[i].1,
    decreases s.len(),
{
    if s.len() > 0 {
        let d = s.drop_last();
        lemma_params_map(d);
        let n = s.len() - 1;
        assert(params_map(s) == params_map(d).insert(s[n].0, s[n].1));
        assert forall|key: Seq<char>|
            #[trigger] params_map(s).dom().contains(key) <==> exists|i: int| 0 <= i < s.len() && s[i].0 == key by {
            if params_map(s).dom().contains(key) && key != s[n].0 {
                assert(params_map(d).dom().contains(key));
                let i = choose|i: int| 0 <= i < d.len() && d[i].0 == key;
                assert(s[i] == d[i]);
            }
            if exists|i: int| 0 <= i < s.len() && s[i].0 == key {
                let i = choose|i: int| 0 <= i < s.len() && s[i].0 == key;
                if i < n {
                    assert(d[i] == s[i]);
                    assert(params_map(d).dom().contains(key));
                }
            }
        }
        assert forall|i: int|
            0 <= i < s.len() && (forall|j: int| i < j < s.len() ==> #[trigger] s[j].0 != s[i].0) implies params_map(
                s,
            )[#[trigger] s[i].0] == s[i].1 by {
            if i < n {
                assert(d[i] == s[i]);
                assert forall|j: int| i < j < d.len() implies #[trigger] d[j].0 != d[i].0 by {
                    assert(d[j] == s[j]);
                }
                assert(s[n].0 != s[i].0);
            }
        }
    }
}

/// Setting a parameter keeps the names apart, and the map gains that name with that value.
pub proof fn lemma_param_set_unique(s: Seq<(Seq<char>, Seq<char>)>, k: Seq<char>, v: Seq<char>)
    requires
        unique_keys(s),
    ensures
        unique_keys(param_set(s, k, v)),
        params_map(param_set(s, k, v)) == params_map(s).insert(k, v),
{
    let t = param_set(s, k, v);
    if exists|p: int| is_first_key(s, k, p) {
        let p = choose|p: int| is_first_key(s, k, p);
        assert(t == s.update(p, (k, v)));
        assert forall|i: int, j: int| 0 <= i < j < t.len() implies #[trigger] t[i].0 != #[trigger] t[j].0 by {
            assert(s[i].0 != s[j].0);
        }
        lemma_params_map(s);
        lemma_params_map(t);
        assert forall|key: Seq<char>| #[trigger] params_map(t).dom().contains(key) <==> params_map(s).insert(k, v).dom().contains(key) by {
            if exists|i: int| 0 <= i < t.len() && t[i].0 == key {
                let i = choose|i: int| 0 <= i < t.len() && t[i].0 == key;
                if i != p {
                    assert(s[i].0 == key);
                }
            }
            if exists|i: int| 0 <= i < s.len() && s[i].0 == key {
                let i = choose|i: int| 0 <= i < s.len() && s[i].0 == key;
                if i != p {
                    assert(t[i].0 == key);
                } else {
                    assert(t[p].0 == key);
                }
            }
            if key == k {
                assert(t[p].0 == key);
            }
        }
        assert forall|key: Seq<char>| #[trigger] params_map(t).dom().contains(key) implies params_map(t)[key]
            == params_map(s).insert(k, v)[key] by {
            let i = choose|i: int| 0 <= i < t.len() && t[i].0 == key;
            assert forall|j: int| i < j < t.len() implies #[trigger] t[j].0 != t[i].0 by {}
            if i != p {
                assert(s[i] == t[i]);
                assert forall|j: int| i < j < s.len() implies #[trigger] s[j].0 != s[i].0 by {}
                assert(params_map(s)[s[i].0] == s[i].1);
                assert(params_map(t)[t[i].0] == t[i].1);
            } else {
                assert(params_map(t)[t[p].0] == t[p].1);
            }
        }
        assert(params_map(t) =~= params_map(s).insert(k, v));
    } else {
        assert(t == s.push((k, v)));
        assert forall|j: int| 0 <= j < s.len() implies #[trigger] s[j].0 != k by {
            if s[j].0 == k {
                lemma_first_key_exists(s, k, j);
            }
        }
        assert forall|i: int, j: int| 0 <= i < j < t.len() implies #[trigger] t[i].0 != #[trigger] t[j].0 by {
            if j == s.len() {
                assert(s[i].0 != k);
            } else {
                assert(s[i].0 != s[j].0);
            }
        }
        assert(t.drop_last() =~= s);
    }
}

/// The query a parameter list sends: each name once, with the value of its last
/// entry (as inserting the entries into a map in order keeps it), in the order the
/// names first appear.
pub fn query_pairs(params: &Vec<(String, String)>) -> (r: Vec<(String, String)>)
    ensures
        unique_keys(pair_views(r@)),
        params_map(pair_views(r@)) == params_map(pair_views(params@)),
{
    let ghost pv = pair_views(params@);
    let mut out: Vec<(String, String)> = Vec::new();
    let mut i: usize = 0;
    assert(pair_views(out@) =~= Seq::<(Seq<char>, Seq<char>)>::empty());
    assert(pv.subrange(0, 0) =~= Seq::<(Seq<char>, Seq<char>)>::empty());
    while i < params.len()
        invariant
            i <= params@.len(),
            pv == pair_views(params@),
            unique_keys(pair_views(out@)),
            params_map(pair_views(out@)) == params_map(pv.subrange(0, i as int)),
        decreases params@.len() - i,
    {
        let ghost before = pair_views(out@);
        proof {
            lemma_param_set_unique(before, params@[i as int].0@, params@[i as int].1@);
        }
        insert_param(&mut out, params[i].0.clone(), params[i].1.clone());
        assert(pv.subrange(0, i + 1).drop_last() =~= pv.subrange(0, i as int));
        assert(pv.subrange(0, i + 1).last() == pv[i as int]);
        i = i + 1;
    }
    assert(pv.subrange(0, pv.len() as int) =~= pv);
    out
}

/// The query text of parameters: `name=value&` for each, in order.
pub open spec fn query_text(s: Seq<(Seq<char>, Seq<char>)>) -> Seq<char>
    decreases s.len(),
{
    if s.len() == 0 {
        Seq::empty()
    } else {
        query_text(s.drop_last()) + s.last().0 + seq!['='] + s.last().1 + seq!['&']
    }
}

// ---------------------------------------------------------------------------
// Configured APIs
// ---------------------------------------------------------------------------

/// A path of an API: its headers, body parameters and query parameters.
pub struct ApiPath {
    pub path: String,
    pub headers: Vec<(String, String)>,
    pub body_parameters: Vec<(String, String)>,
    pub path_parameters: Vec<(String, String)>,
}

fn clone_pairs(v: &Vec<(String, String)>) -> (r: Vec<(String, String)>)
    ensures
        r@ == v@,
{
    let mut out: Vec<(String, String)> = Vec::new();
    let mut i: usize = 0;
    while i < v.len()
        invariant
            i <= v@.len(),
            out@ == v@.subrange(0, i as int),
        decreases v@.len() - i,
    {
        out.push((v[i].0.clone(), v[i].1.clone()));
        i = i + 1;
        assert(out@ =~= v@.subrange(0, i as int));
    }
    assert(out@ =~= v@);
    out
}

impl ApiPath {
    /// Each list names a key at most once, as the maps the lists stand for do.
    pub open spec fn well_formed(&self) -> bool {
        &&& unique_keys(pair_views(self.headers@))
        &&& unique_keys(pair_views(self.body_parameters@))
        &&& unique_keys(pair_views(self.path_parameters@))
    }

    /// A copy of the path.
    pub fn copy(&self) -> (r: Self)
        ensures
            r.path == self.path,
            r.headers@ == self.headers@,
            r.body_parameters@ == self.body_parameters@,
            r.path_parameters@ == self.path_parameters@,
    {
        ApiPath {
            path: self.path.clone(),
            headers: clone_pairs(&self.headers),
            body_parameters: clone_pairs(&self.body_parameters),
            path_parameters: clone_pairs(&self.path_parameters),
        }
    }

    /// The query text of the path's parameters: `name=value&` for each, in order.
    pub fn stringify_path_parametrs(&self) -> (r: String)
        ensures
            r@ == query_text(pair_views(self.path_parameters@)),
    {
        let ghost pv = pair_views(self.path_parameters@);
        let mut s = String::new();
        let mut i: usize = 0;
        while i < self.path_parameters.len()
            invariant
                i <= self.path_parameters@.len(),
                pv == pair_views(self.path_parameters@),
                s@ == query_text(pv.subrange(0, i as int)),
            decreases self.path_parameters@.len() - i,
        {
            push_str(&mut s, self.path_parameters[i].0.as_str());
            push_char(&mut s, '=');
            push_str(&mut s, self.path_parameters[i].1.as_str());
            push_char(&mut s, '&');
            assert(pv.subrange(0, i + 1).drop_last() =~= pv.subrange(0, i as int));
            i = i + 1;
        }
        assert(pv.subrange(0, pv.len() as int) =~= pv);
        s
    }
}

/// What an API's authentication knows.
pub struct Authentication {
    pub scope: Vec<String>,
    pub valid: bool,
    pub expires: i32,
    pub hash: String,
}

/// The challenge sent for a random text: the Base64 of the UTF-8 bytes of the
/// lowercase hexadecimal SHA-256 digest of its UTF-8 bytes.
pub open spec fn challenge_of(raw: Seq<char>) -> Seq<char> {
    base64_standard_of(encode_utf8(hex_lower(sha256_of(encode_utf8(raw)))))
}

impl Authentication {
    /// A random text of `length` letters and digits: `length` draws from `0..62`,
    /// each turned into its character of the alphabet (see [`text_of_draws`]). A
    /// negative length is refused (the precondition), as the assertion it meets
    /// refuses it.
    pub fn generate_random_string(&self, length: i32) -> (r: String)
        requires
            length >= 0,
        ensures
            r@.len() == length,
            forall|i: int| 0 <= i < r@.len() ==> in_charset(#[trigger] r@[i]),
            exists|draws: Seq<usize>|
                draws.len() == length && valid_draws(draws) && r@ == #[trigger] text_of_draws(draws),
    {
        let mut draws: Vec<usize> = Vec::new();
        let mut n: i32 = 0;
        while n < length
            invariant
                0 <= n <= length,
                draws@.len() == n,
                valid_draws(draws@),
            decreases length - n,
        {
            let idx = random_below(62);
            draws.push(idx);
            n = n + 1;
        }
        let s = text_from_draws(&draws);
        assert(s@ == text_of_draws(draws@));
        s
    }

    /// The lowercase hexadecimal SHA-256 digest of the text's UTF-8 bytes.
    pub fn sha256(&self, raw: String) -> (r: String)
        ensures
            r@ == hex_lower(sha256_of(encode_utf8(raw@))),
            r@.len() == 64,
            is_ascii_chars(r@),
    {
        let digest = sha256_digest(raw.as_str().as_bytes());
        proof {
            lemma_hex_len(digest@);
        }
        to_hex_lower(&digest)
    }

    /// The standard Base64 text of the text's UTF-8 bytes.
    pub fn base64(&self, hash: String) -> (r: String)
        requires
            (encode_utf8(hash@).len() / 3) * 4 + 4 <= usize::MAX,
        ensures
            r@ == base64_standard_of(encode_utf8(hash@)),
    {
        base64_standard(hash.as_str().as_bytes())
    }
}

/// A configured web API: its base url, its named paths and its authentication.
pub struct Api {
    pub url: String,
    pub paths: Vec<(String, ApiPath)>,
    pub authentication: Authentication,
}

/// Position `p` holds the last path named `name` (the one a map built in order keeps).
pub open spec fn is_last_path(paths: Seq<(String, ApiPath)>, name: Seq<char>, p: int) -> bool {
    &&& 0 <= p < paths.len()
    &&& paths[p].0@ == name
    &&& forall|j: int| p < j < paths.len() ==> #[trigger] paths[j].0@ != name
}

/// Some path has the name.
pub open spec fn has_path(paths: Seq<(String, ApiPath)>, name: Seq<char>) -> bool {
    exists|p: int| 0 <= p < paths.len() && #[trigger] paths[p].0@ == name
}

/// The key an API is filed under: the second `.`-separated part of its url (the
/// part between the first and the second `.`), or `"NO-DOMAIN"` when the url has no `.`.
pub open spec fn domain_key(url: Seq<char>) -> Seq<char> {
    if exists|i: int| 0 <= i < url.len() && url[i] == '.' {
        let f = choose|i: int|
            0 <= i < url.len() && url[i] == '.' && forall|j: int| 0 <= j < i ==> #[trigger] url[j] != '.';
        before_first_dot(url.skip(f + 1))
    } else {
        "NO-DOMAIN"@
    }
}

/// The key an API is filed under (see [`domain_key`]).
pub fn api_key_of_url(url: &String) -> (r: String)
    ensures
        r@ == domain_key(url@),
{
    let cs = chars_of(url.as_str());
    let mut i: usize = 0;
    while i < cs.len() && cs[i] != '.'
        invariant
            i <= cs@.len(),
            cs@ == url@,
            forall|j: int| 0 <= j < i ==> cs@[j] != '.',
        decreases cs@.len() - i,
    {
        i = i + 1;
    }
    if i == cs.len() {
        proof {
            assert(!exists|k: int| 0 <= k < url@.len() && url@[k] == '.');
        }
        return string_from("NO-DOMAIN");
    }
    let mut rest: Vec<char> = Vec::new();
    let mut k: usize = i + 1;
    while k < cs.len()
        invariant
            i + 1 <= k <= cs@.len(),
            rest@ == cs@.subrange(i + 1, k as int),
        decreases cs@.len() - k,
    {
        rest.push(cs[k]);
        k = k + 1;
        assert(rest@ =~= cs@.subrange(i + 1, k as int));
    }
    let rest_text = crate::text::string_of_chars(&rest);
    proof {
        assert(url@[i as int] == '.');
        let f = choose|x: int|
            0 <= x < url@.len() && url@[x] == '.' && forall|j: int| 0 <= j < x ==> #[trigger] url@[j] != '.';
        if f < i {
            assert(cs@[f] != '.');
        } else if i < f {
            assert(url@[i as int] != '.');
        }
        assert(rest@ =~= url@.skip(i + 1));
    }
    stem_of(&rest_text)
}

/// The position of the last path named `name`.
pub fn find_last_path(paths: &Vec<(String, ApiPath)>, name: &str) -> (r: Option<usize>)
    ensures
        match r {
            Some(p) => is_last_path(paths@, name@, p as int),
            None => forall|j: int| 0 <= j < paths@.len() ==> #[trigger] paths@[j].0@ != name@,
        },
{
    let mut p: usize = paths.len();
    while p > 0
        invariant
            p <= paths@.len(),
            forall|j: int| p <= j < paths@.len() ==> #[trigger] paths@[j].0@ != name@,
        decreases p,
    {
        if text_is(&paths[p - 1].0, name) {
            return Some(p - 1);
        }
        p = p - 1;
    }
    None
}

impl Api {
    /// `path` is the `p`-th path, the last one named `authenticate`, with `state`
    /// and the challenge of the 64 letters and digits of `raw` set as `state` and
    /// `code_challenge`, then the redirect uri and the client id set.
    pub open spec fn prepared_from(
        &self,
        path: ApiPath,
        state: Seq<char>,
        redirect: Seq<char>,
        client_id: Seq<char>,
        p: int,
        raw: Seq<char>,
    ) -> bool {
        &&& is_last_path(self.paths@, "authenticate"@, p)
        &&& raw.len() == 64
        &&& (forall|i: int| 0 <= i < raw.len() ==> in_charset(#[trigger] raw[i]))
        &&& path.path == self.paths@[p].1.path
        &&& path.headers@ == self.paths@[p].1.headers@
        &&& path.body_parameters@ == self.paths@[p].1.body_parameters@
        &&& pair_views(path.path_parameters@) == param_set(
            param_set(
                param_set(
                    param_set(pair_views(self.paths@[p].1.path_parameters@), "state"@, state),
                    "code_challenge"@,
                    challenge_of(raw),
                ),
                "redirect_uri"@,
                redirect,
            ),
            "client_id"@,
            client_id,
        )
    }

    /// The url of a GET request: base url, path, then the query text of its parameters.
    pub fn request_url(&self, subpath: &ApiPath) -> (r: String)
        ensures
            r@ == self.url@ + subpath.path@ + query_text(pair_views(subpath.path_parameters@)),
    {
        let mut s = self.url.clone();
        push_str(&mut s, subpath.path.as_str());
        let q = subpath.stringify_path_parametrs();
        push_str(&mut s, q.as_str());
        s
    }

    /// The url of a POST request: base url and path.
    pub fn post_url(&self, subpath: &ApiPath) -> (r: String)
        ensures
            r@ == self.url@ + subpath.path@,
    {
        let mut s = self.url.clone();
        push_str(&mut s, subpath.path.as_str());
        s
    }

    /// The path named `authenticate`, made ready for the authentication request: a
    /// random 16-character state and the challenge of a random 64-character text set
    /// as `state` and `code_challenge`, then the redirect uri and the client id set as
    /// `redirect_uri` and `client_id`. Gives the path and the state. The API must have
    /// such a path.
    pub fn authentication_request(&self, redirect: String, client_id: String) -> (r: (ApiPath, String))
        requires
            has_path(self.paths@, "authenticate"@),
        ensures
            r.1@.len() == 16,
            forall|i: int| 0 <= i < r.1@.len() ==> in_charset(#[trigger] r.1@[i]),
            exists|p: int, raw: Seq<char>| #[trigger] self.prepared_from(r.0, r.1@, redirect@, client_id@, p, raw),
            (forall|q: int| 0 <= q < self.paths@.len() ==> #[trigger] self.paths@[q].1.well_formed())
                ==> r.0.well_formed(),
    {
        let state = self.authentication.generate_random_string(16);
        let raw_state = self.authentication.generate_random_string(64);
        let ghost raw = raw_state@;
        let hash = self.authentication.sha256(raw_state);
        proof {
            lemma_hex_len(sha256_of(encode_utf8(raw)));
            lemma_ascii_utf8_len(hash@);
        }
        let challenge = self.authentication.base64(hash);
        let pos = match find_last_path(&self.paths, "authenticate") {
            Some(p) => p,
            None => {
                proof {
                    let w = choose|q: int| 0 <= q < self.paths@.len() && #[trigger] self.paths@[q].0@ == "authenticate"@;
                    assert(self.paths@[w].0@ != "authenticate"@);
                }
                return (self.paths[0].1.copy(), state);
            },
        };
        let mut auth_path = self.paths[pos].1.copy();
        assert((forall|q: int| 0 <= q < self.paths@.len() ==> #[trigger] self.paths@[q].1.well_formed())
            ==> auth_path.well_formed()) by {
            if forall|q: int| 0 <= q < self.paths@.len() ==> #[trigger] self.paths@[q].1.well_formed() {
                assert(self.paths@[pos as int].1.well_formed());
            }
        }
        let ghost ch = challenge@;
        let ghost start = pair_views(auth_path.path_parameters@);
        assert(ch == challenge_of(raw));
        insert_param(&mut auth_path.path_parameters, string_from("state"), state.clone());
        insert_param(&mut auth_path.path_parameters, string_from("code_challenge"), challenge);
        insert_param(&mut auth_path.path_parameters, string_from("redirect_uri"), redirect);
        insert_param(&mut auth_path.path_parameters, string_from("client_id"), client_id);
        assert(pair_views(auth_path.path_parameters@) == param_set(
            param_set(
                param_set(param_set(start, "state"@, state@), "code_challenge"@, challenge_of(raw)),
                "redirect_uri"@,
                redirect@,
            ),
            "client_id"@,
            client_id@,
        ));
        assert(is_last_path(self.paths@, "authenticate"@, pos as int));
        let r = (auth_path, state);
        assert(self.prepared_from(r.0, r.1@, redirect@, client_id@, pos as int, raw));
        r
    }
}

/// A hexadecimal text has two characters per byte, all of them ASCII.
pub proof fn lemma_hex_len(b: Seq<u8>)
    ensures
        hex_lower(b).len() == 2 * b.len(),
        is_ascii_chars(hex_lower(b)),
    decreases b.len(),
{
    if b.len() > 0 {
        lemma_hex_len(b.drop_last());
        let h = hex_lower(b);
        let h0 = hex_lower(b.drop_last());
        assert forall|i: int| 0 <= i < h.len() implies '\0' <= #[trigger] h[i] <= '\u{7f}' by {
            if i < h0.len() {
                assert(h[i] == h0[i]);
            }
        }
    }
}

/// An ASCII text of 64 characters has a UTF-8 encoding of 64 bytes.
pub proof fn lemma_ascii_utf8_len(s: Seq<char>)
    requires
        s.len() == 64,
        is_ascii_chars(s),
    ensures
        (encode_utf8(s).len() / 3) * 4 + 4 <= usize::MAX,
{
    vstd::utf8::is_ascii_chars_encode_utf8(s);
}

/// The value of the first query pair named `key`, if any.
pub fn find_param(pairs: &Vec<(String, String)>, key: &str) -> (r: Option<String>)
    ensures
        match r {
            Some(v) => exists|p: int|
                is_first_key(pair_views(pairs@), key@, p) && v == #[trigger] pairs@[p].1,
            None => forall|j: int| 0 <= j < pairs@.len() ==> #[trigger] pairs@[j].0@ != key@,
        },
{
    let mut i: usize = 0;
    while i < pairs.len()
        invariant
            i <= pairs@.len(),
            forall|j: int| 0 <= j < i ==> #[trigger] pairs@[j].0@ != key@,
        decreases pairs@.len() - i,
    {
        if text_is(&pairs[i].0, key) {
            assert(is_first_key(pair_views(pairs@), key@, i as int));
            return Some(pairs[i].1.clone());
        }
        i = i + 1;
    }
    None
}

/// Whether a reply can be trusted: the first `sort` parameter of the returned url
/// exists and equals the state sent.
pub fn state_matches(pairs: &Vec<(String, String)>, state: &String) -> (r: bool)
    ensures
        r == exists|p: int|
            is_first_key(pair_views(pairs@), "sort"@, p) && #[trigger] pairs@[p].1@ == state@,
{
    match find_param(pairs, "sort") {
        Some(v) => {
            proof {
                assert forall|p: int| is_first_key(pair_views(pairs@), "sort"@, p) implies #[trigger] pairs@[p].1@ == v@ by {
                    let q = choose|q: int| is_first_key(pair_views(pairs@), "sort"@, q) && v == #[trigger] pairs@[q].1;
                    if p < q {
                        assert(pair_views(pairs@)[p].0 != "sort"@);
                    } else if q < p {
                        assert(pair_views(pairs@)[q].0 != "sort"@);
                    }
                }
            }
            v == *state
        },
        None => false,
    }
}

/// Setting `k` to `v` makes the first entry named `k` hold `v`.
pub proof fn lemma_param_set_first(s: Seq<(Seq<char>, Seq<char>)>, k: Seq<char>, v: Seq<char>)
    ensures
        exists|p: int| is_first_key(param_set(s, k, v), k, p) && #[trigger] param_set(s, k, v)[p].1 == v,
{
    let t = param_set(s, k, v);
    if exists|p: int| is_first_key(s, k, p) {
        let p = choose|p: int| is_first_key(s, k, p);
        assert forall|j: int| 0 <= j < p implies #[trigger] t[j].0 != k by {
            assert(t[j] == s[j]);
        }
        assert(is_first_key(t, k, p) && t[p].1 == v);
    } else {
        let n = s.len() as int;
        assert forall|j: int| 0 <= j < n implies #[trigger] t[j].0 != k by {
            assert(t[j] == s[j]);
            if s[j].0 == k {
                lemma_first_key_exists(s, k, j);
            }
        }
        assert(is_first_key(t, k, n) && t[n].1 == v);
    }
}

/// Setting another name keeps the first entry named `k` where it is, with its value.
pub proof fn lemma_param_set_keeps_other(
    s: Seq<(Seq<char>, Seq<char>)>,
    k2: Seq<char>,
    v2: Seq<char>,
    k: Seq<char>,
    p: int,
)
    requires
        k != k2,
        is_first_key(s, k, p),
    ensures
        is_first_key(param_set(s, k2, v2), k, p),
        param_set(s, k2, v2)[p] == s[p],
{
    let t = param_set(s, k2, v2);
    if exists|q: int| is_first_key(s, k2, q) {
        let q = choose|q: int| is_first_key(s, k2, q);
        assert(t == s.update(q, (k2, v2)));
        assert(q != p);
        assert forall|j: int| 0 <= j < p implies #[trigger] t[j].0 != k by {
            if j != q {
                assert(t[j] == s[j]);
            }
        }
    } else {
        assert(t == s.push((k2, v2)));
        assert forall|j: int| 0 <= j < p implies #[trigger] t[j].0 != k by {
            assert(t[j] == s[j]);
        }
    }
}

/// The authentication request carries what the protocol asks for: the first
/// `state` parameter is the state that is returned; the first `code_challenge`
/// parameter is the standard Base64 of the lowercase hexadecimal SHA-256 digest of
/// the UTF-8 bytes of the random verifier; the first `redirect_uri` and `client_id`
/// parameters are the given redirect uri and client id.
pub proof fn law_authentication_parameters(
    api: Api,
    path: ApiPath,
    state: Seq<char>,
    redirect: Seq<char>,
    client_id: Seq<char>,
    p: int,
    raw: Seq<char>,
)
    requires
        api.prepared_from(path, state, redirect, client_id, p, raw),
    ensures
        exists|q: int|
            is_first_key(pair_views(path.path_parameters@), "code_challenge"@, q) && #[trigger] pair_views(
                path.path_parameters@,
            )[q].1 == base64_standard_of(encode_utf8(hex_lower(sha256_of(encode_utf8(raw))))),
        exists|q: int|
            is_first_key(pair_views(path.path_parameters@), "state"@, q) && #[trigger] pair_views(
                path.path_parameters@,
            )[q].1 == state,
        exists|q: int|
            is_first_key(pair_views(path.path_parameters@), "redirect_uri"@, q) && #[trigger] pair_views(
                path.path_parameters@,
            )[q].1 == redirect,
        exists|q: int|
            is_first_key(pair_views(path.path_parameters@), "client_id"@, q) && #[trigger] pair_views(
                path.path_parameters@,
            )[q].1 == client_id,
{
    reveal_strlit("state");
    reveal_strlit("code_challenge");
    reveal_strlit("redirect_uri");
    reveal_strlit("client_id");
    let challenge = base64_standard_of(encode_utf8(hex_lower(sha256_of(encode_utf8(raw)))));
    let s0 = pair_views(api.paths@[p].1.path_parameters@);
    let s1 = param_set(s0, "state"@, state);
    let s2 = param_set(s1, "code_challenge"@, challenge);
    let s3 = param_set(s2, "redirect_uri"@, redirect);
    let s4 = param_set(s3, "client_id"@, client_id);
    assert(pair_views(path.path_parameters@) == s4);
    assert("state"@.len() == 5);
    assert("code_challenge"@.len() == 14);
    assert("redirect_uri"@.len() == 12);
    assert("client_id"@.len() == 9);
    assert("state"@ != "code_challenge"@);
    assert("state"@ != "redirect_uri"@);
    assert("state"@ != "client_id"@);
    assert("code_challenge"@ != "redirect_uri"@);
    assert("code_challenge"@ != "client_id"@);
    assert("redirect_uri"@ != "client_id"@);
    lemma_param_set_first(s0, "state"@, state);
    let q1 = choose|q: int| is_first_key(s1, "state"@, q) && #[trigger] s1[q].1 == state;
    lemma_param_set_keeps_other(s1, "code_challenge"@, challenge, "state"@, q1);
    lemma_param_set_keeps_other(s2, "redirect_uri"@, redirect, "state"@, q1);
    lemma_param_set_keeps_other(s3, "client_id"@, client_id, "state"@, q1);
    assert(s4[q1].1 == state);
    lemma_param_set_first(s1, "code_challenge"@, challenge);
    let q2 = choose|q: int| is_first_key(s2, "code_challenge"@, q) && #[trigger] s2[q].1 == challenge;
    lemma_param_set_keeps_other(s2, "redirect_uri"@, redirect, "code_challenge"@, q2);
    lemma_param_set_keeps_other(s3, "client_id"@, client_id, "code_challenge"@, q2);
    assert(s4[q2].1 == challenge);
    lemma_param_set_first(s2, "redirect_uri"@, redirect);
    let q3 = choose|q: int| is_first_key(s3, "redirect_uri"@, q) && #[trigger] s3[q].1 == redirect;
    lemma_param_set_keeps_other(s3, "client_id"@, client_id, "redirect_uri"@, q3);
    assert(s4[q3].1 == redirect);
    lemma_param_set_first(s3, "client_id"@, client_id);
}

} // verus!
