//! A fixed-size config slot baked into compiled client binaries. The server
//! byte-patches the slot of a pre-built binary with a JSON config; the
//! client searches its own executable for the marker to recover it.

use vstd::prelude::*;
use crate::text::{decimal, push_decimal};

verus! {

/// Length of the marker that precedes the config slot.
pub const CONFIG_MAGIC_LEN: usize = 27;

/// Fixed size of the null-padded JSON slot that follows the marker.
pub const CONFIG_SLOT_SIZE: usize = 4096;

/// Marker plus slot.
pub const TOTAL_LEN: usize = 4123;

/// `VISUARA_EMBEDDED_CONFIG_V1` followed by a null byte.
pub const CONFIG_MAGIC: [u8; 27] = [
    86, 73, 83, 85, 65, 82, 65, 95, 69, 77, 66, 69, 68, 68, 69, 68, 95, 67, 79, 78, 70, 73, 71, 95,
    86, 49, 0,
];

/// The marker as a sequence.
pub open spec fn magic() -> Seq<u8> {
    seq![
        86u8, 73u8, 83u8, 85u8, 65u8, 82u8, 65u8, 95u8, 69u8, 77u8, 66u8, 69u8, 68u8, 68u8, 69u8,
        68u8, 95u8, 67u8, 79u8, 78u8, 70u8, 73u8, 71u8, 95u8, 86u8, 49u8, 0u8,
    ]
}

/// `needle` occurs in `haystack` starting at `i`.
pub open spec fn matches_at(haystack: Seq<u8>, needle: Seq<u8>, i: int) -> bool {
    &&& 0 <= i
    &&& i + needle.len() <= haystack.len()
    &&& haystack.subrange(i, i + needle.len()) == needle
}

/// `i` is the first position at which `needle` occurs in `haystack`.
pub open spec fn first_match(haystack: Seq<u8>, needle: Seq<u8>, i: int) -> bool {
    &&& matches_at(haystack, needle, i)
    &&& forall|j: int| 0 <= j < i ==> !matches_at(haystack, needle, j)
}

/// The first position of `needle` in `haystack`, if it occurs.
pub open spec fn spec_find_subslice(haystack: Seq<u8>, needle: Seq<u8>) -> Option<int> {
    if exists|i: int| first_match(haystack, needle, i) {
        Some(choose|i: int| first_match(haystack, needle, i))
    } else {
        None
    }
}

/// The bytes before the first null byte (all of `s` when it holds none).
pub open spec fn null_terminated(s: Seq<u8>) -> Seq<u8>
    decreases s.len(),
{
    if s.len() == 0 || s[0] == 0 {
        Seq::empty()
    } else {
        seq![s[0]] + null_terminated(s.drop_first())
    }
}

/// What the slot following the first marker of `data` holds, cut at its
/// first null byte; `None` for an unpatched binary: no marker, nothing
/// after it, or a slot whose payload is empty.
pub open spec fn spec_find_in_binary(data: Seq<u8>) -> Option<Seq<u8>> {
    match spec_find_subslice(data, magic()) {
        None => None,
        Some(pos) => {
            let start = pos + CONFIG_MAGIC_LEN;
            let end = if start + CONFIG_SLOT_SIZE <= data.len() {
                start + CONFIG_SLOT_SIZE
            } else {
                data.len() as int
            };
            if end <= start || null_terminated(data.subrange(start, end)).len() == 0 {
                None
            } else {
                Some(null_terminated(data.subrange(start, end)))
            }
        },
    }
}

/// The slot content for a JSON payload: the payload, then nulls up to the
/// slot size.
pub open spec fn spec_slot(json: Seq<u8>) -> Seq<u8> {
    json + Seq::new((CONFIG_SLOT_SIZE - json.len()) as nat, |i: int| 0u8)
}

/// What an unpatched binary carries: the marker and an all-null slot.
pub open spec fn marker_slot() -> Seq<u8> {
    magic() + Seq::new(CONFIG_SLOT_SIZE as nat, |i: int| 0u8)
}

/// No null byte occurs in `s`.
pub open spec fn null_free(s: Seq<u8>) -> bool {
    forall|i: int| 0 <= i < s.len() ==> s[i] != 0
}

/// Why a config could not be embedded.
#[derive(Debug, Clone, Copy, PartialEq, Eq)]
pub enum EmbedError {
    /// The template holds no marker.
    NoMarker,
    /// The template ends before the end of the slot that follows its marker.
    TruncatedSlot,
    /// The payload (of the given length) does not fit the slot.
    TooLarge(usize),
}

impl EmbedError {
    /// The error's report.
    pub open spec fn spec_message(self) -> Seq<char> {
        match self {
            EmbedError::NoMarker => "template binary has no embedded-config marker — was it built from a version with embedded_config support?"@,
            EmbedError::TruncatedSlot => "template binary's config slot is truncated"@,
            EmbedError::TooLarge(n) => "embedded config is "@ + decimal(n as nat) + " bytes, exceeds the 4096-byte slot"@,
        }
    }

    /// The error's report.
    pub fn message(self) -> (r: String)
        ensures
            r@ == self.spec_message(),
    {
        match self {
            EmbedError::NoMarker => String::from_str(
                "template binary has no embedded-config marker — was it built from a version with embedded_config support?",
            ),
            EmbedError::TruncatedSlot => String::from_str("template binary's config slot is truncated"),
            EmbedError::TooLarge(n) => {
                let mut r = String::from_str("embedded config is ");
                push_decimal(&mut r, n as u64);
                r.append(" bytes, exceeds the 4096-byte slot");
                r
            },
        }
    }
}

/// The outcome of patching `template` with `json`.
pub open spec fn spec_patch_binary(json: Seq<u8>, template: Seq<u8>) -> Result<Seq<u8>, EmbedError> {
    match spec_find_subslice(template, magic()) {
        None => Err(EmbedError::NoMarker),
        Some(pos) => {
            let start = pos + CONFIG_MAGIC_LEN;
            let end = start + CONFIG_SLOT_SIZE;
            if end > template.len() {
                Err(EmbedError::TruncatedSlot)
            } else if json.len() > CONFIG_SLOT_SIZE {
                Err(EmbedError::TooLarge(json.len() as usize))
            } else {
                Ok(template.subrange(0, start) + spec_slot(json) + template.subrange(end, template.len() as int))
            }
        },
    }
}

proof fn lemma_first_match_unique(h: Seq<u8>, n: Seq<u8>, i: int, j: int)
    requires
        first_match(h, n, i),
        first_match(h, n, j),
    ensures
        i == j,
{
}

proof fn lemma_find_is(h: Seq<u8>, n: Seq<u8>, i: int)
    requires
        first_match(h, n, i),
    ensures
        spec_find_subslice(h, n) == Some(i),
{
    let k = choose|k: int| first_match(h, n, k);
    lemma_first_match_unique(h, n, i, k);
}

proof fn lemma_null_terminated(s: Seq<u8>, k: int)
    requires
        0 <= k <= s.len(),
        forall|j: int| 0 <= j < k ==> s[j] != 0,
        k == s.len() || s[k] == 0,
    ensures
        null_terminated(s) == s.take(k),
    decreases k,
{
    if k > 0 {
        lemma_null_terminated(s.drop_first(), k - 1);
        assert(s.take(k) =~= seq![s[0]] + s.drop_first().take(k - 1));
    } else {
        assert(s.take(k) =~= Seq::<u8>::empty());
    }
}

/// The marker as a vector.
pub fn config_magic() -> (r: Vec<u8>)
    ensures
        r@ == magic(),
{
    let r: Vec<u8> = vec![
        86, 73, 83, 85, 65, 82, 65, 95, 69, 77, 66, 69, 68, 68, 69, 68, 95, 67, 79, 78, 70, 73, 71, 95,
        86, 49, 0,
    ];
    assert(r@ =~= magic());
    r
}

/// First position at which `needle` occurs in `haystack`.
pub fn find_subslice(haystack: &[u8], needle: &[u8]) -> (r: Option<usize>)
    requires
        needle@.len() > 0,
    ensures
        match r {
            Some(p) => first_match(haystack@, needle@, p as int),
            None => forall|i: int| !matches_at(haystack@, needle@, i),
        },
        r matches Some(p) ==> spec_find_subslice(haystack@, needle@) == Some(p as int),
        r is None ==> spec_find_subslice(haystack@, needle@) is None,
{
    let hl = haystack.len();
    let nl = needle.len();
    if nl > hl {
        assert forall|i: int| !matches_at(haystack@, needle@, i) by {}
        return None;
    }
    let mut i: usize = 0;
    while i <= hl - nl
        invariant
            hl == haystack@.len(),
            nl == needle@.len(),
            0 < nl <= hl,
            i <= hl - nl + 1,
            forall|j: int| 0 <= j < i ==> !matches_at(haystack@, needle@, j),
        decreases hl + 1 - i,
    {
        let mut k: usize = 0;
        let mut same = true;
        while k < nl
            invariant
                hl == haystack@.len(),
                nl == needle@.len(),
                i + nl <= hl,
                k <= nl,
                same ==> forall|m: int| 0 <= m < k ==> haystack@[i + m] == needle@[m],
                !same ==> !matches_at(haystack@, needle@, i as int),
            decreases nl - k,
        {
            if haystack[i + k] != needle[k] {
                same = false;
                assert(haystack@.subrange(i as int, i + nl)[k as int] != needle@[k as int]);
            }
            k = k + 1;
        }
        if same {
            assert(haystack@.subrange(i as int, i + nl) =~= needle@);
            proof {
                lemma_find_is(haystack@, needle@, i as int);
            }
            return Some(i);
        }
        i = i + 1;
    }
    assert forall|j: int| !matches_at(haystack@, needle@, j) by {
        if 0 <= j && j < i {
        }
    }
    proof {
        if exists|p: int| first_match(haystack@, needle@, p) {
            let p = choose|p: int| first_match(haystack@, needle@, p);
            assert(matches_at(haystack@, needle@, p));
        }
    }
    None
}

/// The bytes of `bytes` before its first null byte.
pub fn slot_payload(bytes: &[u8]) -> (r: Vec<u8>)
    ensures
        r@ == null_terminated(bytes@),
{
    let mut r: Vec<u8> = Vec::new();
    let mut i: usize = 0;
    while i < bytes.len() && bytes[i] != 0
        invariant
            i <= bytes@.len(),
            r@ == bytes@.take(i as int),
            forall|j: int| 0 <= j < i ==> bytes@[j] != 0,
        decreases bytes@.len() - i,
    {
        r.push(bytes[i]);
        i = i + 1;
        assert(r@ =~= bytes@.take(i as int));
    }
    proof {
        lemma_null_terminated(bytes@, i as int);
    }
    r
}

/// The slot content for a JSON payload: the payload followed by nulls up
/// to `CONFIG_SLOT_SIZE`; an error when the payload does not fit.
pub fn to_slot_bytes(json: &[u8]) -> (r: Result<Vec<u8>, EmbedError>)
    ensures
        json@.len() > CONFIG_SLOT_SIZE ==> r == Err::<Vec<u8>, EmbedError>(EmbedError::TooLarge(json@.len() as usize)),
        json@.len() <= CONFIG_SLOT_SIZE ==> (r matches Ok(s) && s@ == spec_slot(json@)),
{
    if json.len() > CONFIG_SLOT_SIZE {
        return Err(EmbedError::TooLarge(json.len()));
    }
    let mut buf: Vec<u8> = Vec::new();
    let mut i: usize = 0;
    while i < json.len()
        invariant
            i <= json@.len(),
            json@.len() <= CONFIG_SLOT_SIZE,
            buf@ == json@.take(i as int),
        decreases json@.len() - i,
    {
        buf.push(json[i]);
        i = i + 1;
        assert(buf@ =~= json@.take(i as int));
    }
    assert(json@.take(i as int) =~= json@);
    while i < CONFIG_SLOT_SIZE
        invariant
            json@.len() <= i <= CONFIG_SLOT_SIZE,
            buf@ == json@ + Seq::new((i - json@.len()) as nat, |k: int| 0u8),
        decreases CONFIG_SLOT_SIZE - i,
    {
        buf.push(0u8);
        i = i + 1;
        assert(buf@ =~= json@ + Seq::new((i - json@.len()) as nat, |k: int| 0u8));
    }
    Ok(buf)
}

/// The marker followed by an empty (all-null) slot: what an unpatched
/// client binary carries.
pub fn build_marker_slot() -> (r: Vec<u8>)
    ensures
        r@ == marker_slot(),
{
    let mut buf = config_magic();
    let mut i: usize = CONFIG_MAGIC_LEN;
    while i < TOTAL_LEN
        invariant
            CONFIG_MAGIC_LEN <= i <= TOTAL_LEN,
            buf@.len() == i,
            buf@.subrange(0, CONFIG_MAGIC_LEN as int) == magic(),
            forall|k: int| CONFIG_MAGIC_LEN <= k < i ==> buf@[k] == 0,
        decreases TOTAL_LEN - i,
    {
        buf.push(0u8);
        i = i + 1;
        assert(buf@.subrange(0, CONFIG_MAGIC_LEN as int) =~= magic());
    }
    assert(buf@ =~= marker_slot());
    buf
}

/// A slot read back gives the payload it was built from, when that payload
/// fits the slot and holds no null byte.
pub proof fn lemma_slot_round_trip(json: Seq<u8>)
    requires
        json.len() <= CONFIG_SLOT_SIZE,
        null_free(json),
    ensures
        null_terminated(spec_slot(json)) == json,
{
    let s = spec_slot(json);
    lemma_null_terminated(s, json.len() as int);
    assert(s.take(json.len() as int) =~= json);
}

/// Patching never changes the size of the binary.
pub proof fn lemma_patch_preserves_length(json: Seq<u8>, template: Seq<u8>)
    ensures
        spec_patch_binary(json, template) matches Ok(p) ==> p.len() == template.len(),
{
}

/// Patching leaves the marker where it was: the patched binary's first
/// marker is the template's, and it keeps the template's length.
proof fn lemma_patch_keeps_marker(json: Seq<u8>, template: Seq<u8>)
    requires
        spec_patch_binary(json, template) is Ok,
    ensures
        spec_find_subslice(spec_patch_binary(json, template)->Ok_0, magic()) == spec_find_subslice(template, magic()),
        spec_patch_binary(json, template)->Ok_0.len() == template.len(),
{
    let pos = spec_find_subslice(template, magic())->Some_0;
    let k = choose|k: int| first_match(template, magic(), k);
    assert(pos == k);
    let start = pos + CONFIG_MAGIC_LEN;
    let end = start + CONFIG_SLOT_SIZE;
    let patched = spec_patch_binary(json, template)->Ok_0;
    assert(patched =~= template.subrange(0, start) + spec_slot(json) + template.subrange(end, template.len() as int));
    assert(magic().len() == 27);
    assert(patched.subrange(pos, pos + 27) =~= template.subrange(pos, pos + 27));
    assert forall|j: int| 0 <= j < pos implies !matches_at(patched, magic(), j) by {
        assert(patched.subrange(j, j + 27) =~= template.subrange(j, j + 27));
        assert(!matches_at(template, magic(), j));
    }
    assert(first_match(patched, magic(), pos));
    lemma_find_is(patched, magic(), pos);
}

/// Reading the config back out of a freshly patched binary gives exactly
/// the payload that was patched in (JSON text is never empty and never
/// holds a null byte).
pub proof fn lemma_patch_then_find(json: Seq<u8>, template: Seq<u8>)
    requires
        spec_patch_binary(json, template) is Ok,
        json.len() > 0,
        null_free(json),
    ensures
        spec_find_in_binary(spec_patch_binary(json, template)->Ok_0) == Some(json),
{
    lemma_patch_keeps_marker(json, template);
    let pos = spec_find_subslice(template, magic())->Some_0;
    let start = pos + CONFIG_MAGIC_LEN;
    let end = start + CONFIG_SLOT_SIZE;
    let patched = spec_patch_binary(json, template)->Ok_0;
    assert(patched =~= template.subrange(0, start) + spec_slot(json) + template.subrange(end, template.len() as int));
    assert(patched.subrange(start, end) =~= spec_slot(json));
    lemma_slot_round_trip(json);
}

/// The last patch wins: patching an already patched binary gives what
/// patching the original template with the new payload gives (the same
/// binary, or the same error), since the marker does not move. In
/// particular, patching again with the same payload changes nothing.
pub proof fn lemma_last_patch_wins(first: Seq<u8>, second: Seq<u8>, template: Seq<u8>)
    requires
        spec_patch_binary(first, template) is Ok,
    ensures
        spec_patch_binary(second, spec_patch_binary(first, template)->Ok_0) == spec_patch_binary(second, template),
        spec_patch_binary(first, spec_patch_binary(first, template)->Ok_0) == spec_patch_binary(first, template),
{
    lemma_patch_keeps_marker(first, template);
    let pos = spec_find_subslice(template, magic())->Some_0;
    let start = pos + CONFIG_MAGIC_LEN;
    let end = start + CONFIG_SLOT_SIZE;
    let p1 = spec_patch_binary(first, template)->Ok_0;
    assert(p1 =~= template.subrange(0, start) + spec_slot(first) + template.subrange(end, template.len() as int));
    assert(p1.subrange(0, start) =~= template.subrange(0, start));
    assert(p1.subrange(end, p1.len() as int) =~= template.subrange(end, template.len() as int));
}

/// An unpatched binary carries no config.
pub proof fn lemma_marker_slot_reads_none()
    ensures
        spec_find_in_binary(marker_slot()) is None,
{
    let m = marker_slot();
    assert(magic().len() == 27);
    assert(m.subrange(0, 27) =~= magic());
    assert(first_match(m, magic(), 0));
    lemma_find_is(m, magic(), 0);
    let slot = m.subrange(27int, 4123int);
    assert(slot[0] == 0);
}

/// A client configuration that can be embedded into a downloadable binary.
#[derive(Debug, Clone, Default, PartialEq, Eq)]
pub struct EmbeddedConfig {
    pub server_url: Option<String>,
    pub device_name: Option<String>,
}

impl EmbeddedConfig {
    /// Locates the marker in a whole executable and returns the JSON payload
    /// of the slot that follows it (cut at its first null byte). `None`
    /// means an unpatched binary: no marker, nothing after it, or an empty
    /// slot; that is no error, the client falls back to its defaults.
    pub fn find_in_binary(data: &[u8]) -> (r: Option<Vec<u8>>)
        ensures
            r matches Some(v) ==> spec_find_in_binary(data@) == Some(v@),
            r is None ==> spec_find_in_binary(data@) is None,
    {
        let magic_v = config_magic();
        let found = find_subslice(data, magic_v.as_slice());
        match found {
            None => None,
            Some(pos) => {
                assert(magic().len() == 27);
                assert(matches_at(data@, magic(), pos as int));
                assert(pos + 27 <= data.len());
                let start = pos + CONFIG_MAGIC_LEN;
                let end = if data.len() >= CONFIG_SLOT_SIZE && start <= data.len() - CONFIG_SLOT_SIZE {
                    start + CONFIG_SLOT_SIZE
                } else {
                    data.len()
                };
                if end <= start {
                    None
                } else {
                    let slot = &data[start..end];
                    let payload = slot_payload(slot);
                    if payload.len() == 0 {
                        None
                    } else {
                        Some(payload)
                    }
                }
            },
        }
    }

    /// A copy of `template` whose config slot holds `json`, null padded.
    /// Fails when the template has no marker, when its slot is cut short,
    /// or when the payload does not fit the slot (checked in that order).
    pub fn patch_binary(json: &[u8], template: &[u8]) -> (r: Result<Vec<u8>, EmbedError>)
        ensures
            r matches Ok(v) ==> spec_patch_binary(json@, template@) == Ok::<Seq<u8>, EmbedError>(v@),
            r matches Err(e) ==> spec_patch_binary(json@, template@) == Err::<Seq<u8>, EmbedError>(e),
    {
        let magic_v = config_magic();
        let pos = match find_subslice(template, magic_v.as_slice()) {
            None => return Err(EmbedError::NoMarker),
            Some(p) => p,
        };
        assert(magic().len() == 27);
        assert(matches_at(template@, magic(), pos as int));
        assert(pos + 27 <= template.len());
        let start = pos + CONFIG_MAGIC_LEN;
        if template.len() < CONFIG_SLOT_SIZE || start > template.len() - CONFIG_SLOT_SIZE {
            return Err(EmbedError::TruncatedSlot);
        }
        let end = start + CONFIG_SLOT_SIZE;
        let slot = match to_slot_bytes(json) {
            Err(e) => return Err(e),
            Ok(s) => s,
        };
        let mut patched: Vec<u8> = Vec::new();
        let mut i: usize = 0;
        while i < template.len()
            invariant
                start + CONFIG_SLOT_SIZE == end,
                end <= template@.len(),
                slot@ == spec_slot(json@),
                i <= template@.len(),
                patched@.len() == i,
                forall|k: int| 0 <= k < i ==> patched@[k] == (if start <= k < end {
                    slot@[k - start]
                } else {
                    template@[k]
                }),
            decreases template@.len() - i,
        {
            if start <= i && i < end {
                patched.push(slot[i - start]);
            } else {
                patched.push(template[i]);
            }
            i = i + 1;
        }
        assert(patched@ =~= template@.subrange(0, start as int) + spec_slot(json@) + template@.subrange(
            end as int,
            template@.len() as int,
        ));
        Ok(patched)
    }
}

} // verus!
