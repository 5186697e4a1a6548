//! Short-lived TURN credentials in coturn's time-limited REST convention:
//! the username is `<expiry-unix-ts>:<label>`, the password is
//! `base64(HMAC-SHA1(shared_secret, username))`.

use vstd::prelude::*;
use crate::text::{
    chars_vec, copy_range, decimal, find_char_from, lemma_index_of, push_char, push_decimal, push_str, split_on,
    string_from_chars, texts, trim, trim_chars,
};
use vstd::string::StringSliceAdditionalSpecFns;
use base64::engine::general_purpose::STANDARD;
use base64::Engine;
use hmac::{Hmac, Mac};
use sha1::Sha1;

verus! {

/// The TURN relay's URLs and the secret it shares with this server.
pub struct TurnConfig {
    pub urls: Vec<String>,
    pub shared_secret: String,
}

/// HMAC-SHA1 of `msg` under `key`.
pub uninterp spec fn hmac_sha1(key: Seq<u8>, msg: Seq<u8>) -> Seq<u8>;

/// HMAC-SHA1 (`Hmac::<Sha1>::new_from_slice`, `update`, `finalize`). HMAC
/// accepts keys of any length, so the construction cannot fail. Claimed:
/// the tag is `hmac_sha1` of the key and message, and it is 20 bytes long
/// (SHA-1's output size).
#[verifier::external_body]
fn hmac_sha1_tag(key: &[u8], msg: &[u8]) -> (r: Vec<u8>)
    ensures
        r@ == hmac_sha1(key@, msg@),
        r@.len() == 20,
{
    let mut mac = Hmac::<Sha1>::new_from_slice(key).expect("HMAC accepts any key length");
    mac.update(msg);
    mac.finalize().into_bytes().to_vec()
}

/// The standard base64 alphabet.
pub open spec fn b64_char(v: int) -> char {
    if v < 26 {
        (65 + v) as char
    } else if v < 52 {
        (97 + v - 26) as char
    } else if v < 62 {
        (48 + v - 52) as char
    } else if v == 62 {
        '+'
    } else {
        '/'
    }
}

/// Standard base64 (RFC 4648 alphabet, `=` padding).
pub open spec fn base64_standard(b: Seq<u8>) -> Seq<char>
    decreases b.len(),
{
    if b.len() == 0 {
        Seq::empty()
    } else {
        let x = b[0] as int;
        if b.len() == 1 {
            seq![b64_char(x / 4), b64_char((x % 4) * 16), '=', '=']
        } else {
            let y = b[1] as int;
            if b.len() == 2 {
                seq![b64_char(x / 4), b64_char((x % 4) * 16 + y / 16), b64_char((y % 16) * 4), '=']
            } else {
                let z = b[2] as int;
                seq![
                    b64_char(x / 4),
                    b64_char((x % 4) * 16 + y / 16),
                    b64_char((y % 16) * 4 + z / 64),
                    b64_char(z % 64),
                ] + base64_standard(b.skip(3))
            }
        }
    }
}

/// `base64::engine::general_purpose::STANDARD.encode`. Claimed: standard
/// alphabet with padding, as `base64_standard` spells out.
#[verifier::external_body]
fn base64_encode(bytes: &[u8]) -> (r: String)
    ensures
        r@ == base64_standard(bytes@),
{
    STANDARD.encode(bytes)
}

/// The TURN username for an expiry time and a label.
pub open spec fn turn_username(expiry: nat, label: Seq<char>) -> Seq<char> {
    decimal(expiry) + seq![':'] + label
}

/// The TURN password for a username under a shared secret.
pub open spec fn turn_password(secret: Seq<char>, username: Seq<char>) -> Seq<char> {
    base64_standard(hmac_sha1(vstd::utf8::encode_utf8(secret), vstd::utf8::encode_utf8(username)))
}

/// Credentials valid until `now + ttl_secs`, for a clock reading `now`.
pub fn mint_credentials_at(cfg: &TurnConfig, label: &str, ttl_secs: u32, now: u64) -> (r: (String, String))
    requires
        now + ttl_secs <= u64::MAX,
    ensures
        r.0@ == turn_username((now + ttl_secs) as nat, label@),
        r.1@ == turn_password(cfg.shared_secret@, r.0@),
{
    let expiry: u64 = now + ttl_secs as u64;
    let mut username = String::new();
    push_decimal(&mut username, expiry);
    push_char(&mut username, ':');
    push_str(&mut username, label);
    assert(username@ =~= turn_username(expiry as nat, label@));
    let tag = hmac_sha1_tag(cfg.shared_secret.as_str().as_bytes(), username.as_str().as_bytes());
    let password = base64_encode(tag.as_slice());
    (username, password)
}

/// Seconds since the Unix epoch by the system clock
/// (`SystemTime::now().duration_since(UNIX_EPOCH)`), `None` when the clock
/// reads earlier than the epoch. Nothing more is claimed: it is the time.
#[verifier::external_body]
pub(crate) fn unix_now() -> Option<u64> {
    match std::time::SystemTime::now().duration_since(std::time::UNIX_EPOCH) {
        Ok(d) => Some(d.as_secs()),
        Err(_) => None,
    }
}

/// What minting gives at clock reading `now`: nothing without a reading or
/// when the expiry `now + ttl` would not fit a `u64`, else the credentials
/// for that expiry.
pub open spec fn clock_minted(secret: Seq<char>, label: Seq<char>, ttl_secs: u32, now: Option<u64>, r: Option<(String, String)>) -> bool {
    match now {
        None => r is None,
        Some(n) => if n + ttl_secs > u64::MAX {
            r is None
        } else {
            r matches Some(c) && c.0@ == turn_username((n + ttl_secs) as nat, label) && c.1@ == turn_password(secret, c.0@)
        },
    }
}

/// Credentials for `label`, valid for `ttl_secs` from the clock reading
/// `now` (`None`: the clock could not be read).
pub fn mint_credentials_with_clock(cfg: &TurnConfig, label: &str, ttl_secs: u32, now: Option<u64>) -> (r: Option<(String, String)>)
    ensures
        clock_minted(cfg.shared_secret@, label@, ttl_secs, now, r),
{
    match now {
        None => None,
        Some(n) => {
            if n > u64::MAX - ttl_secs as u64 {
                None
            } else {
                Some(mint_credentials_at(cfg, label, ttl_secs, n))
            }
        },
    }
}

/// Credentials for `label`, valid for `ttl_secs` from now. `None` when the
/// system clock reads before the Unix epoch or the expiry would not fit a
/// `u64` (both make the clock unusable for an expiry time).
pub fn mint_credentials(cfg: &TurnConfig, label: &str, ttl_secs: u32) -> (r: Option<(String, String)>)
    ensures
        exists|now: Option<u64>| #[trigger] clock_minted(cfg.shared_secret@, label@, ttl_secs, now, r),
        r matches Some(c) ==> (exists|expiry: nat|
            expiry >= ttl_secs && c.0@ == #[trigger] turn_username(expiry, label@))
            && c.1@ == turn_password(cfg.shared_secret@, c.0@),
{
    let now = unix_now();
    let r = mint_credentials_with_clock(cfg, label, ttl_secs, now);
    proof {
        match now {
            Some(n) => {
                if r is Some {
                    assert(r->Some_0.0@ == turn_username((n + ttl_secs) as nat, label@));
                }
            },
            None => {},
        }
        assert(clock_minted(cfg.shared_secret@, label@, ttl_secs, now, r));
    }
    r
}

/// The TURN server URLs configured as one comma-separated text: each part,
/// with surrounding whitespace trimmed.
pub open spec fn turn_url_list(s: Seq<char>) -> Seq<Seq<char>> {
    split_on(s, ',').map_values(|p: Seq<char>| trim(p))
}

/// Splits a comma-separated list of TURN server URLs, trimming each.
pub fn parse_turn_urls(s: &str) -> (r: Vec<String>)
    ensures
        texts(r@) == turn_url_list(s@),
{
    let v = chars_vec(s);
    let n = v.len();
    let mut out: Vec<String> = Vec::new();
    let mut p: usize = 0;
    assert(v@.skip(0) =~= v@);
    assert(texts(out@) =~= Seq::<Seq<char>>::empty());
    while p <= n
        invariant
            v@ == s@,
            n == v@.len(),
            p <= n,
            texts(out@) + turn_url_list(v@.skip(p as int)) == turn_url_list(s@),
        decreases n + 1 - p,
    {
        let j = find_char_from(v.as_slice(), ',', p);
        let part = copy_range(v.as_slice(), p, j);
        let ghost rest = v@.skip(p as int);
        let ghost before = texts(out@);
        proof {
            lemma_index_of(rest, ',');
            assert(rest.take(j - p) =~= part@);
            if j < n {
                assert(rest.skip(j - p + 1) =~= v@.skip(j + 1));
                assert(split_on(rest, ',') == seq![part@] + split_on(v@.skip(j + 1), ','));
                assert(turn_url_list(rest) =~= seq![trim(part@)] + turn_url_list(v@.skip(j + 1)));
            } else {
                assert(rest =~= part@);
                assert(split_on(rest, ',') == seq![part@]);
                assert(turn_url_list(rest) =~= seq![trim(part@)]);
            }
        }
        let t = trim_chars(part.as_slice());
        out.push(string_from_chars(t.as_slice()));
        assert(texts(out@) =~= before.push(trim(part@)));
        if j >= n {
            assert(texts(out@) =~= before + turn_url_list(rest));
            assert(v@.skip(n as int) =~= Seq::<char>::empty());
            return out;
        }
        assert(texts(out@) + turn_url_list(v@.skip(j + 1)) =~= before + turn_url_list(rest));
        p = j + 1;
    }
    out
}

} // verus!
