//! The signal codec: the wire format for the two signaling messages
//! (`Offer`, `Answer`) and the two channel envelopes (`PublicKey`,
//! `EncryptedData`).
//!
//! Both travel as JSON objects of exactly two string members, tagged by a
//! discriminator member (`signal_type` for signals, `type` for envelopes).
//! The grammar is owned here: a serializer whose output is pinned down
//! character by character, and a parser proved against a specification of the
//! same grammar, with round-trip laws connecting the two.  String values may
//! hold any character; the serializer emits the standard short escapes, a
//! `\u00XX` escape for the remaining control characters, and every other
//! character raw.  The parser additionally accepts `\/` and `\uXXXX` escapes
//! of ASCII characters, and whitespace between tokens.

use vstd::prelude::*;

verus! {

use vstd::string::StrSliceExecFns;

/// JSON whitespace.
pub open spec fn is_ws_char(c: char) -> bool {
    c == ' ' || c == '\t' || c == '\n' || c == '\r'
}

/// Hexadecimal digit, either case.
pub open spec fn is_hex_digit(c: char) -> bool {
    ||| 48 <= (c as u32) <= 57
    ||| 97 <= (c as u32) <= 102
    ||| 65 <= (c as u32) <= 70
}

/// Value of a hexadecimal digit.
pub open spec fn hex_val(c: char) -> int
    recommends
        is_hex_digit(c),
{
    if 48 <= (c as u32) <= 57 {
        (c as u32) - 48
    } else if 97 <= (c as u32) <= 102 {
        (c as u32) - 87
    } else {
        (c as u32) - 55
    }
}

/// Lower-case hexadecimal digit for a value below 16.
pub open spec fn hex_char(v: int) -> char
    recommends
        0 <= v < 16,
{
    if v < 10 {
        ((48 + v) as u8) as char
    } else {
        ((87 + v) as u8) as char
    }
}

/// The character a short escape `\e` stands for, if `e` is one.
pub open spec fn short_escape(e: char) -> Option<char> {
    if e == '"' {
        Some('"')
    } else if e == '\\' {
        Some('\\')
    } else if e == '/' {
        Some('/')
    } else if e == 'n' {
        Some('\n')
    } else if e == 'r' {
        Some('\r')
    } else if e == 't' {
        Some('\t')
    } else if e == 'b' {
        Some('\u{8}')
    } else if e == 'f' {
        Some('\u{c}')
    } else {
        None
    }
}

/// How the serializer writes one character inside a JSON string.
pub open spec fn escaped_char(c: char) -> Seq<char> {
    if c == '"' {
        seq!['\\', '"']
    } else if c == '\\' {
        seq!['\\', '\\']
    } else if c == '\n' {
        seq!['\\', 'n']
    } else if c == '\r' {
        seq!['\\', 'r']
    } else if c == '\t' {
        seq!['\\', 't']
    } else if c == '\u{8}' {
        seq!['\\', 'b']
    } else if c == '\u{c}' {
        seq!['\\', 'f']
    } else if (c as u32) < 32 {
        seq!['\\', 'u', '0', '0', hex_char((c as u32) as int / 16), hex_char((c as u32) as int % 16)]
    } else {
        seq![c]
    }
}

/// How the serializer writes a whole string body.
pub open spec fn escaped(s: Seq<char>) -> Seq<char>
    decreases s.len(),
{
    if s.len() == 0 {
        Seq::empty()
    } else {
        escaped_char(s[0]) + escaped(s.drop_first())
    }
}

/// The suffix left after leading JSON whitespace.
pub open spec fn spec_skip_ws(s: Seq<char>) -> Seq<char>
    decreases s.len(),
{
    if s.len() > 0 && is_ws_char(s[0]) {
        spec_skip_ws(s.drop_first())
    } else {
        s
    }
}

/// Parses a JSON string body, the opening quote already consumed: the decoded
/// content and the suffix after the closing quote.  Only `\uXXXX` escapes of
/// ASCII characters are accepted; raw control characters are refused.
pub open spec fn spec_parse_string_body(s: Seq<char>) -> Option<(Seq<char>, Seq<char>)>
    decreases s.len(),
{
    if s.len() == 0 {
        None
    } else if s[0] == '"' {
        Some((Seq::empty(), s.drop_first()))
    } else if s[0] == '\\' {
        if s.len() < 2 {
            None
        } else if s[1] == 'u' {
            if s.len() >= 6 && is_hex_digit(s[2]) && is_hex_digit(s[3]) && is_hex_digit(s[4])
                && is_hex_digit(s[5]) {
                let v = hex_val(s[2]) * 4096 + hex_val(s[3]) * 256 + hex_val(s[4]) * 16 + hex_val(
                    s[5],
                );
                if v < 128 {
                    match spec_parse_string_body(s.skip(6)) {
                        Some(t) => Some((seq![(v as u8) as char] + t.0, t.1)),
                        None => None,
                    }
                } else {
                    None
                }
            } else {
                None
            }
        } else {
            match short_escape(s[1]) {
                Some(c) => match spec_parse_string_body(s.skip(2)) {
                    Some(t) => Some((seq![c] + t.0, t.1)),
                    None => None,
                },
                None => None,
            }
        }
    } else if (s[0] as u32) < 32 {
        None
    } else {
        match spec_parse_string_body(s.drop_first()) {
            Some(t) => Some((seq![s[0]] + t.0, t.1)),
            None => None,
        }
    }
}

/// Parses one `"key" : "value"` member, leading whitespace allowed: the key,
/// the value and the suffix after the value's closing quote.
pub open spec fn spec_parse_member(s: Seq<char>) -> Option<((Seq<char>, Seq<char>), Seq<char>)> {
    let s1 = spec_skip_ws(s);
    if s1.len() > 0 && s1[0] == '"' {
        match spec_parse_string_body(s1.drop_first()) {
            Some(t) => {
                let key = t.0;
                let s3 = spec_skip_ws(t.1);
                if s3.len() > 0 && s3[0] == ':' {
                    let s4 = spec_skip_ws(s3.drop_first());
                    if s4.len() > 0 && s4[0] == '"' {
                        match spec_parse_string_body(s4.drop_first()) {
                            Some(u) => Some(((key, u.0), u.1)),
                            None => None,
                        }
                    } else {
                        None
                    }
                } else {
                    None
                }
            },
            None => None,
        }
    } else {
        None
    }
}

/// Parses a complete two-member object of string members, nothing but
/// whitespace around the tokens and nothing after the closing brace.
pub open spec fn spec_parse_pair_object(s: Seq<char>) -> Option<
    ((Seq<char>, Seq<char>), (Seq<char>, Seq<char>)),
> {
    let s1 = spec_skip_ws(s);
    if s1.len() > 0 && s1[0] == '{' {
        match spec_parse_member(s1.drop_first()) {
            Some(t) => {
                let m1 = t.0;
                let s3 = spec_skip_ws(t.1);
                if s3.len() > 0 && s3[0] == ',' {
                    match spec_parse_member(s3.drop_first()) {
                        Some(u) => {
                            let m2 = u.0;
                            let s5 = spec_skip_ws(u.1);
                            if s5.len() > 0 && s5[0] == '}' && spec_skip_ws(
                                s5.drop_first(),
                            ).len() == 0 {
                                Some((m1, m2))
                            } else {
                                None
                            }
                        },
                        None => None,
                    }
                } else {
                    None
                }
            },
            None => None,
        }
    } else {
        None
    }
}

/// Copies a string slice into a character vector.
pub fn str_chars(s: &str) -> (v: Vec<char>)
    ensures
        v@ == s@,
{
    let n = s.unicode_len();
    let mut v: Vec<char> = Vec::new();
    let mut i: usize = 0;
    while i < n
        invariant
            i <= n,
            n == s@.len(),
            v@ == s@.subrange(0, i as int),
        decreases n - i,
    {
        v.push(s.get_char(i));
        i = i + 1;
        proof {
            assert(v@ =~= s@.subrange(0, i as int));
        }
    }
    proof {
        assert(v@ =~= s@);
    }
    v
}

/// Relies on `Iterator::collect` building a `String` from its characters.
#[verifier::external_body]
fn chars_string(v: &Vec<char>) -> (s: String)
    ensures
        s@ == v@,
{
    v.iter().collect()
}

/// Character-vector against string-slice comparison.
pub fn chars_eq_str(v: &Vec<char>, s: &str) -> (b: bool)
    ensures
        b == (v@ == s@),
{
    let n = s.unicode_len();
    if v.len() != n {
        return false;
    }
    let mut i: usize = 0;
    while i < n
        invariant
            i <= n,
            n == s@.len(),
            n == v@.len(),
            forall|j: int| 0 <= j < i ==> v@[j] == s@[j],
        decreases n - i,
    {
        if v[i] != s.get_char(i) {
            return false;
        }
        i = i + 1;
    }
    proof {
        assert(v@ =~= s@);
    }
    true
}

/// String-slice equality by characters.
pub fn str_eq(a: &str, b: &str) -> (r: bool)
    ensures
        r == (a@ == b@),
{
    let n = a.unicode_len();
    if n != b.unicode_len() {
        return false;
    }
    let mut i: usize = 0;
    while i < n
        invariant
            i <= n,
            n == a@.len(),
            n == b@.len(),
            forall|j: int| 0 <= j < i ==> a@[j] == b@[j],
        decreases n - i,
    {
        if a.get_char(i) != b.get_char(i) {
            return false;
        }
        i = i + 1;
    }
    proof {
        assert(a@ =~= b@);
    }
    true
}

fn is_ws_exec(c: char) -> (b: bool)
    ensures
        b == is_ws_char(c),
{
    c == ' ' || c == '\t' || c == '\n' || c == '\r'
}

fn hex_val_exec(c: char) -> (r: Option<u32>)
    ensures
        match r {
            Some(v) => is_hex_digit(c) && v == hex_val(c) && v < 16,
            None => !is_hex_digit(c),
        },
{
    let u = c as u32;
    if 48 <= u && u <= 57 {
        Some(u - 48)
    } else if 97 <= u && u <= 102 {
        Some(u - 87)
    } else if 65 <= u && u <= 70 {
        Some(u - 55)
    } else {
        None
    }
}

fn short_escape_exec(e: char) -> (r: Option<char>)
    ensures
        r == short_escape(e),
{
    if e == '"' {
        Some('"')
    } else if e == '\\' {
        Some('\\')
    } else if e == '/' {
        Some('/')
    } else if e == 'n' {
        Some('\n')
    } else if e == 'r' {
        Some('\r')
    } else if e == 't' {
        Some('\t')
    } else if e == 'b' {
        Some('\u{8}')
    } else if e == 'f' {
        Some('\u{c}')
    } else {
        None
    }
}

/// Consumes leading whitespace from position `i`.
fn skip_ws_exec(v: &Vec<char>, i: usize) -> (j: usize)
    requires
        i <= v.len(),
    ensures
        i <= j <= v.len(),
        spec_skip_ws(v@.skip(i as int)) == v@.skip(j as int),
    decreases v.len() - i,
{
    if i < v.len() && is_ws_exec(v[i]) {
        proof {
            assert(v@.skip(i as int).drop_first() =~= v@.skip(i as int + 1));
        }
        skip_ws_exec(v, i + 1)
    } else {
        i
    }
}

/// Parses a string body from position `i` (the opening quote already
/// consumed): the decoded content and the position after the closing quote.
fn parse_string_body(v: &Vec<char>, i: usize) -> (r: Option<(Vec<char>, usize)>)
    requires
        i <= v.len(),
    ensures
        match r {
            Some(t) => i <= t.1 <= v.len() && spec_parse_string_body(v@.skip(i as int)) == Some(
                (t.0@, v@.skip(t.1 as int)),
            ),
            None => spec_parse_string_body(v@.skip(i as int)) is None,
        },
    decreases v.len() - i,
{
    let n = v.len();
    let ghost s = v@.skip(i as int);
    if i >= n {
        return None;
    }
    let c = v[i];
    proof {
        assert(s[0] == c);
        assert(s.drop_first() =~= v@.skip(i as int + 1));
    }
    if c == '"' {
        return Some((Vec::new(), i + 1));
    }
    if c == '\\' {
        if i + 1 >= n {
            return None;
        }
        let e = v[i + 1];
        proof {
            assert(s[1] == e);
        }
        if e == 'u' {
            if n - i < 6 {
                return None;
            }
            proof {
                assert(s[2] == v@[i + 2] && s[3] == v@[i + 3] && s[4] == v@[i + 4] && s[5] == v@[i
                    + 5]);
            }
            let h1 = hex_val_exec(v[i + 2]);
            let h2 = hex_val_exec(v[i + 3]);
            let h3 = hex_val_exec(v[i + 4]);
            let h4 = hex_val_exec(v[i + 5]);
            match (h1, h2, h3, h4) {
                (Some(a), Some(b), Some(cc), Some(d)) => {
                    let val = a * 4096 + b * 256 + cc * 16 + d;
                    if val >= 128 {
                        return None;
                    }
                    proof {
                        assert(s.skip(6) =~= v@.skip(i as int + 6));
                    }
                    match parse_string_body(v, i + 6) {
                        Some((tail, j)) => {
                            let mut out: Vec<char> = Vec::new();
                            out.push((val as u8) as char);
                            let mut tail = tail;
                            out.append(&mut tail);
                            Some((out, j))
                        },
                        None => None,
                    }
                },
                _ => None,
            }
        } else {
            match short_escape_exec(e) {
                Some(d) => {
                    proof {
                        assert(s.skip(2) =~= v@.skip(i as int + 2));
                    }
                    match parse_string_body(v, i + 2) {
                        Some((tail, j)) => {
                            let mut out: Vec<char> = Vec::new();
                            out.push(d);
                            let mut tail = tail;
                            out.append(&mut tail);
                            Some((out, j))
                        },
                        None => None,
                    }
                },
                None => None,
            }
        }
    } else if (c as u32) < 32 {
        None
    } else {
        match parse_string_body(v, i + 1) {
            Some((tail, j)) => {
                let mut out: Vec<char> = Vec::new();
                out.push(c);
                let mut tail = tail;
                out.append(&mut tail);
                Some((out, j))
            },
            None => None,
        }
    }
}

/// Parses one `"key" : "value"` member from position `i`.
fn parse_member(v: &Vec<char>, i: usize) -> (r: Option<(Vec<char>, Vec<char>, usize)>)
    requires
        i <= v.len(),
    ensures
        match r {
            Some(t) => i <= t.2 <= v.len() && spec_parse_member(v@.skip(i as int)) == Some(
                ((t.0@, t.1@), v@.skip(t.2 as int)),
            ),
            None => spec_parse_member(v@.skip(i as int)) is None,
        },
{
    let i1 = skip_ws_exec(v, i);
    if i1 >= v.len() || v[i1] != '"' {
        return None;
    }
    proof {
        assert(v@.skip(i1 as int)[0] == v@[i1 as int]);
        assert(v@.skip(i1 as int).drop_first() =~= v@.skip(i1 as int + 1));
    }
    let (key, i2) = match parse_string_body(v, i1 + 1) {
        Some(t) => t,
        None => {
            return None;
        },
    };
    let i3 = skip_ws_exec(v, i2);
    if i3 >= v.len() || v[i3] != ':' {
        return None;
    }
    proof {
        assert(v@.skip(i3 as int)[0] == v@[i3 as int]);
        assert(v@.skip(i3 as int).drop_first() =~= v@.skip(i3 as int + 1));
    }
    let i4 = skip_ws_exec(v, i3 + 1);
    if i4 >= v.len() || v[i4] != '"' {
        return None;
    }
    proof {
        assert(v@.skip(i4 as int)[0] == v@[i4 as int]);
        assert(v@.skip(i4 as int).drop_first() =~= v@.skip(i4 as int + 1));
    }
    let (value, i5) = match parse_string_body(v, i4 + 1) {
        Some(t) => t,
        None => {
            return None;
        },
    };
    Some((key, value, i5))
}

/// Parses a complete two-member object covering the whole vector.
fn parse_pair_object(v: &Vec<char>) -> (r: Option<(Vec<char>, Vec<char>, Vec<char>, Vec<char>)>)
    ensures
        match r {
            Some(t) => spec_parse_pair_object(v@) == Some(((t.0@, t.1@), (t.2@, t.3@))),
            None => spec_parse_pair_object(v@) is None,
        },
{
    proof {
        assert(v@.skip(0) =~= v@);
    }
    let i1 = skip_ws_exec(v, 0);
    if i1 >= v.len() || v[i1] != '{' {
        return None;
    }
    proof {
        assert(v@.skip(i1 as int)[0] == v@[i1 as int]);
        assert(v@.skip(i1 as int).drop_first() =~= v@.skip(i1 as int + 1));
    }
    let (k1, v1, i2) = match parse_member(v, i1 + 1) {
        Some(t) => t,
        None => {
            return None;
        },
    };
    let i3 = skip_ws_exec(v, i2);
    if i3 >= v.len() || v[i3] != ',' {
        return None;
    }
    proof {
        assert(v@.skip(i3 as int)[0] == v@[i3 as int]);
        assert(v@.skip(i3 as int).drop_first() =~= v@.skip(i3 as int + 1));
    }
    let (k2, v2, i4) = match parse_member(v, i3 + 1) {
        Some(t) => t,
        None => {
            return None;
        },
    };
    let i5 = skip_ws_exec(v, i4);
    if i5 >= v.len() || v[i5] != '}' {
        return None;
    }
    proof {
        assert(v@.skip(i5 as int)[0] == v@[i5 as int]);
        assert(v@.skip(i5 as int).drop_first() =~= v@.skip(i5 as int + 1));
    }
    let i6 = skip_ws_exec(v, i5 + 1);
    if i6 < v.len() {
        proof {
            assert(v@.skip(i6 as int).len() > 0);
        }
        return None;
    }
    proof {
        assert(v@.skip(i6 as int).len() == 0);
    }
    Some((k1, v1, k2, v2))
}

/// One side's completed local network description: exactly one `Offer` and
/// one `Answer` exist per session, and neither is mutated after creation.
pub enum RtcSignalData {
    Offer { sdp_data: String },
    Answer { sdp_data: String },
}

/// The mathematical value of a signal.
pub enum SignalView {
    Offer { sdp: Seq<char> },
    Answer { sdp: Seq<char> },
}

impl View for RtcSignalData {
    type V = SignalView;

    open spec fn view(&self) -> SignalView {
        match self {
            RtcSignalData::Offer { sdp_data } => SignalView::Offer { sdp: sdp_data@ },
            RtcSignalData::Answer { sdp_data } => SignalView::Answer { sdp: sdp_data@ },
        }
    }
}

/// The only two message shapes ever sent over an open data channel: a bare
/// public key, or a sealed payload.
pub enum RtcMessage {
    PublicKey { public_key: String },
    EncryptedData { encrypted_data: String },
}

/// The mathematical value of a channel envelope.
pub enum EnvelopeView {
    PublicKey { key: Seq<char> },
    EncryptedData { blob: Seq<char> },
}

impl View for RtcMessage {
    type V = EnvelopeView;

    open spec fn view(&self) -> EnvelopeView {
        match self {
            RtcMessage::PublicKey { public_key } => EnvelopeView::PublicKey { key: public_key@ },
            RtcMessage::EncryptedData { encrypted_data } => EnvelopeView::EncryptedData {
                blob: encrypted_data@,
            },
        }
    }
}

/// The serialized form of one `"key":"value"` member.
pub open spec fn member_json(key: Seq<char>, value: Seq<char>) -> Seq<char> {
    seq!['"'] + escaped(key) + seq!['"', ':', '"'] + escaped(value) + seq!['"']
}

/// The serialized form of a two-member object, compact.
pub open spec fn pair_object_json(
    k1: Seq<char>,
    v1: Seq<char>,
    k2: Seq<char>,
    v2: Seq<char>,
) -> Seq<char> {
    seq!['{'] + member_json(k1, v1) + seq![','] + member_json(k2, v2) + seq!['}']
}

/// The wire text of a signal.
pub open spec fn signal_json(d: SignalView) -> Seq<char> {
    match d {
        SignalView::Offer { sdp } => pair_object_json("signal_type"@, "offer"@, "sdp_data"@, sdp),
        SignalView::Answer { sdp } => pair_object_json("signal_type"@, "answer"@, "sdp_data"@, sdp),
    }
}

/// The wire text of a channel envelope.
pub open spec fn envelope_json(e: EnvelopeView) -> Seq<char> {
    match e {
        EnvelopeView::PublicKey { key } => pair_object_json("type"@, "publicKey"@, "publicKey"@, key),
        EnvelopeView::EncryptedData { blob } => pair_object_json(
            "type"@,
            "encryptedData"@,
            "encryptedData"@,
            blob,
        ),
    }
}

/// Which signal a `signal_type` tag and an `sdp_data` value name, if any.
pub open spec fn signal_of_fields(tag: Seq<char>, sdp: Seq<char>) -> Option<SignalView> {
    if tag == "offer"@ {
        Some(SignalView::Offer { sdp })
    } else if tag == "answer"@ {
        Some(SignalView::Answer { sdp })
    } else {
        None
    }
}

/// What a signal wire text means: a two-member object whose keys are
/// `signal_type` and `sdp_data` in either order, with a known tag.
pub open spec fn spec_parse_signal(s: Seq<char>) -> Option<SignalView> {
    match spec_parse_pair_object(s) {
        Some(t) => {
            let ((k1, v1), (k2, v2)) = t;
            if k1 == "signal_type"@ && k2 == "sdp_data"@ {
                signal_of_fields(v1, v2)
            } else if k1 == "sdp_data"@ && k2 == "signal_type"@ {
                signal_of_fields(v2, v1)
            } else {
                None
            }
        },
        None => None,
    }
}

/// Which envelope a `type` tag, the other member's key and its value name.
pub open spec fn envelope_of_fields(tag: Seq<char>, key: Seq<char>, value: Seq<char>) -> Option<
    EnvelopeView,
> {
    if tag == "publicKey"@ && key == "publicKey"@ {
        Some(EnvelopeView::PublicKey { key: value })
    } else if tag == "encryptedData"@ && key == "encryptedData"@ {
        Some(EnvelopeView::EncryptedData { blob: value })
    } else {
        None
    }
}

/// What an envelope wire text means: a two-member object, one member keyed
/// `type`, the other carrying the payload under the tag's own name.
pub open spec fn spec_parse_envelope(s: Seq<char>) -> Option<EnvelopeView> {
    match spec_parse_pair_object(s) {
        Some(t) => {
            let ((k1, v1), (k2, v2)) = t;
            if k1 == "type"@ {
                envelope_of_fields(v1, k2, v2)
            } else if k2 == "type"@ {
                envelope_of_fields(v2, k1, v1)
            } else {
                None
            }
        },
        None => None,
    }
}

/// Escaping distributes over concatenation.
pub proof fn lemma_escaped_append(a: Seq<char>, b: Seq<char>)
    ensures
        escaped(a + b) == escaped(a) + escaped(b),
    decreases a.len(),
{
    if a.len() == 0 {
        assert(a + b =~= b);
        assert(escaped(a) + escaped(b) =~= escaped(b));
    } else {
        assert((a + b).len() > 0);
        assert((a + b)[0] == a[0]);
        assert((a + b).drop_first() =~= a.drop_first() + b);
        lemma_escaped_append(a.drop_first(), b);
        assert(escaped(a + b) =~= escaped(a) + escaped(b));
    }
}

/// Escaping a single character writes exactly its escape.
pub proof fn lemma_escaped_single(c: char)
    ensures
        escaped(seq![c]) == escaped_char(c),
{
    assert(seq![c].len() == 1 && seq![c][0] == c);
    assert(seq![c].drop_first() =~= Seq::<char>::empty());
    assert(escaped(Seq::<char>::empty()) == Seq::<char>::empty());
    assert(escaped(seq![c]) == escaped_char(c) + escaped(seq![c].drop_first()));
    assert(escaped(seq![c]) =~= escaped_char(c));
}

/// The serializer's hexadecimal digits are hexadecimal digits to the parser,
/// with the same value.
pub proof fn lemma_hex_digit(v: int)
    requires
        0 <= v < 16,
    ensures
        is_hex_digit(hex_char(v)),
        hex_val(hex_char(v)) == v,
{
    if v < 10 {
        assert((((48 + v) as u8) as char) as u32 == 48 + v);
    } else {
        assert((((87 + v) as u8) as char) as u32 == 87 + v);
    }
}

/// The parser inverts the serializer on a string body: the escaped content,
/// a closing quote and any suffix parse back to the content and the suffix.
pub proof fn lemma_parse_escaped(x: Seq<char>, rest: Seq<char>)
    ensures
        spec_parse_string_body(escaped(x) + seq!['"'] + rest) == Some((x, rest)),
    decreases x.len(),
{
    let s = escaped(x) + seq!['"'] + rest;
    if x.len() == 0 {
        assert(escaped(x) == Seq::<char>::empty());
        assert(s =~= seq!['"'] + rest);
        assert(s[0] == '"');
        assert(s.drop_first() =~= rest);
        assert(x =~= Seq::<char>::empty());
    } else {
        let c = x[0];
        let x1 = x.drop_first();
        lemma_parse_escaped(x1, rest);
        let tail = escaped(x1) + seq!['"'] + rest;
        assert(escaped(x) == escaped_char(c) + escaped(x1));
        assert(s =~= escaped_char(c) + tail);
        assert(seq![c] + x1 =~= x);
        if c == '"' || c == '\\' || c == '\n' || c == '\r' || c == '\t' || c == '\u{8}' || c
            == '\u{c}' {
            let e: char = if c == '"' {
                '"'
            } else if c == '\\' {
                '\\'
            } else if c == '\n' {
                'n'
            } else if c == '\r' {
                'r'
            } else if c == '\t' {
                't'
            } else if c == '\u{8}' {
                'b'
            } else {
                'f'
            };
            assert(escaped_char(c) == seq!['\\', e]);
            assert(s[0] == '\\' && s[1] == e);
            assert(e != 'u');
            assert(short_escape(e) == Some(c));
            assert(s.skip(2) =~= tail);
            assert(spec_parse_string_body(s) == Some((seq![c] + x1, rest)));
        } else if (c as u32) < 32 {
            let hi = (c as u32) as int / 16;
            let lo = (c as u32) as int % 16;
            lemma_hex_digit(hi);
            lemma_hex_digit(lo);
            assert(escaped_char(c) == seq!['\\', 'u', '0', '0', hex_char(hi), hex_char(lo)]);
            assert(s[0] == '\\' && s[1] == 'u');
            assert(s[2] == '0' && s[3] == '0');
            assert(s[4] == hex_char(hi) && s[5] == hex_char(lo));
            assert(is_hex_digit('0') && hex_val('0') == 0);
            let v = hex_val(s[2]) * 4096 + hex_val(s[3]) * 256 + hex_val(s[4]) * 16 + hex_val(s[5]);
            assert(v == hi * 16 + lo);
            assert(v == c as u32);
            let ch = (v as u8) as char;
            assert(ch as u32 == c as u32);
            vstd::utf8::char_u32_cast(c, c as u32);
            vstd::utf8::char_u32_cast(ch, ch as u32);
            assert(ch == c);
            assert(s.skip(6) =~= tail);
            assert(spec_parse_string_body(s) == Some((seq![c] + x1, rest)));
        } else {
            assert(escaped_char(c) == seq![c]);
            assert(s[0] == c);
            assert(s.drop_first() =~= tail);
            assert(spec_parse_string_body(s) == Some((seq![c] + x1, rest)));
        }
    }
}

/// The parser inverts the serializer on one member, whatever follows it.
pub proof fn lemma_parse_member_json(k: Seq<char>, v: Seq<char>, rest: Seq<char>)
    ensures
        spec_parse_member(member_json(k, v) + rest) == Some(((k, v), rest)),
{
    let s = member_json(k, v) + rest;
    let mid = seq![':', '"'] + escaped(v) + seq!['"'] + rest;
    assert(s.len() > 0 && s[0] == '"');
    assert(spec_skip_ws(s) == s);
    assert(s.drop_first() =~= escaped(k) + seq!['"'] + mid);
    lemma_parse_escaped(k, mid);
    assert(mid.len() > 0 && mid[0] == ':');
    assert(spec_skip_ws(mid) == mid);
    let quoted = seq!['"'] + (escaped(v) + seq!['"'] + rest);
    assert(mid.drop_first() =~= quoted);
    assert(spec_skip_ws(quoted) == quoted);
    assert(quoted[0] == '"');
    assert(quoted.drop_first() =~= escaped(v) + seq!['"'] + rest);
    lemma_parse_escaped(v, rest);
}

/// The parser inverts the serializer on a whole two-member object.
pub proof fn lemma_parse_pair_json(k1: Seq<char>, v1: Seq<char>, k2: Seq<char>, v2: Seq<char>)
    ensures
        spec_parse_pair_object(pair_object_json(k1, v1, k2, v2)) == Some(((k1, v1), (k2, v2))),
{
    let s = pair_object_json(k1, v1, k2, v2);
    let after1 = seq![','] + member_json(k2, v2) + seq!['}'];
    assert(s.len() > 0 && s[0] == '{');
    assert(spec_skip_ws(s) == s);
    assert(s.drop_first() =~= member_json(k1, v1) + after1);
    lemma_parse_member_json(k1, v1, after1);
    assert(after1.len() > 0 && after1[0] == ',');
    assert(spec_skip_ws(after1) == after1);
    let after2 = member_json(k2, v2) + seq!['}'];
    assert(after1.drop_first() =~= after2);
    lemma_parse_member_json(k2, v2, seq!['}']);
    let closer = seq!['}'];
    assert(spec_skip_ws(closer) == closer);
    assert(closer[0] == '}');
    assert(closer.drop_first() =~= Seq::<char>::empty());
    assert(spec_skip_ws(Seq::<char>::empty()).len() == 0);
}

/// Round-trip law: parsing a serialized signal yields exactly that signal.
pub proof fn lemma_signal_round_trip(d: SignalView)
    ensures
        spec_parse_signal(signal_json(d)) == Some(d),
{
    match d {
        SignalView::Offer { sdp } => {
            lemma_parse_pair_json("signal_type"@, "offer"@, "sdp_data"@, sdp);
        },
        SignalView::Answer { sdp } => {
            lemma_parse_pair_json("signal_type"@, "answer"@, "sdp_data"@, sdp);
            proof_strlit_facts();
        },
    }
}

/// Round-trip law: parsing a serialized envelope yields exactly that
/// envelope.
pub proof fn lemma_envelope_round_trip(e: EnvelopeView)
    ensures
        spec_parse_envelope(envelope_json(e)) == Some(e),
{
    match e {
        EnvelopeView::PublicKey { key } => {
            lemma_parse_pair_json("type"@, "publicKey"@, "publicKey"@, key);
        },
        EnvelopeView::EncryptedData { blob } => {
            lemma_parse_pair_json("type"@, "encryptedData"@, "encryptedData"@, blob);
            proof_strlit_facts();
        },
    }
}

/// The tag literals of the two wire formats are pairwise distinct.
proof fn proof_strlit_facts()
    ensures
        "answer"@ != "offer"@,
        "encryptedData"@ != "publicKey"@,
{
    reveal_strlit("answer");
    reveal_strlit("offer");
    reveal_strlit("encryptedData");
    reveal_strlit("publicKey");
    assert("answer"@.len() == 6 && "offer"@.len() == 5);
    assert("encryptedData"@.len() == 13 && "publicKey"@.len() == 9);
}

fn hex_char_exec(v: u32) -> (c: char)
    requires
        v < 16,
    ensures
        c == hex_char(v as int),
{
    if v < 10 {
        ((48 + v) as u8) as char
    } else {
        ((87 + v) as u8) as char
    }
}

/// Appends the escape of one character.
fn escape_char_push(out: &mut Vec<char>, c: char)
    ensures
        final(out)@ == old(out)@ + escaped_char(c),
{
    if c == '"' {
        out.push('\\');
        out.push('"');
    } else if c == '\\' {
        out.push('\\');
        out.push('\\');
    } else if c == '\n' {
        out.push('\\');
        out.push('n');
    } else if c == '\r' {
        out.push('\\');
        out.push('r');
    } else if c == '\t' {
        out.push('\\');
        out.push('t');
    } else if c == '\u{8}' {
        out.push('\\');
        out.push('b');
    } else if c == '\u{c}' {
        out.push('\\');
        out.push('f');
    } else if (c as u32) < 32 {
        out.push('\\');
        out.push('u');
        out.push('0');
        out.push('0');
        out.push(hex_char_exec((c as u32) / 16));
        out.push(hex_char_exec((c as u32) % 16));
    } else {
        out.push(c);
    }
    proof {
        assert(out@ =~= old(out)@ + escaped_char(c));
    }
}

/// Appends the escaped form of a string.
fn push_escaped_str(out: &mut Vec<char>, s: &str)
    ensures
        final(out)@ == old(out)@ + escaped(s@),
{
    let n = s.unicode_len();
    let mut i: usize = 0;
    while i < n
        invariant
            i <= n,
            n == s@.len(),
            out@ == old(out)@ + escaped(s@.take(i as int)),
        decreases n - i,
    {
        proof {
            assert(s@.take(i as int + 1) =~= s@.take(i as int) + seq![s@[i as int]]);
            lemma_escaped_append(s@.take(i as int), seq![s@[i as int]]);
            lemma_escaped_single(s@[i as int]);
        }
        escape_char_push(out, s.get_char(i));
        i = i + 1;
        proof {
            assert(out@ =~= old(out)@ + escaped(s@.take(i as int)));
        }
    }
    proof {
        assert(s@.take(n as int) =~= s@);
    }
}

/// Serializes a compact two-member object of the four given strings.
fn pair_object_string(k1: &str, v1: &str, k2: &str, v2: &str) -> (s: String)
    ensures
        s@ == pair_object_json(k1@, v1@, k2@, v2@),
{
    let mut out: Vec<char> = Vec::new();
    out.push('{');
    out.push('"');
    push_escaped_str(&mut out, k1);
    out.push('"');
    out.push(':');
    out.push('"');
    push_escaped_str(&mut out, v1);
    out.push('"');
    out.push(',');
    out.push('"');
    push_escaped_str(&mut out, k2);
    out.push('"');
    out.push(':');
    out.push('"');
    push_escaped_str(&mut out, v2);
    out.push('"');
    out.push('}');
    proof {
        assert(out@ =~= pair_object_json(k1@, v1@, k2@, v2@));
    }
    chars_string(&out)
}

impl RtcSignalData {
    /// Serializes this signal to its wire text.
    pub fn to_wire(&self) -> (s: String)
        ensures
            s@ == signal_json(self@),
    {
        match self {
            RtcSignalData::Offer { sdp_data } => pair_object_string(
                "signal_type",
                "offer",
                "sdp_data",
                sdp_data.as_str(),
            ),
            RtcSignalData::Answer { sdp_data } => pair_object_string(
                "signal_type",
                "answer",
                "sdp_data",
                sdp_data.as_str(),
            ),
        }
    }

    /// Parses a wire text as a signal.
    pub fn from_wire(s: &str) -> (r: Option<RtcSignalData>)
        ensures
            match r {
                Some(d) => spec_parse_signal(s@) == Some(d@),
                None => spec_parse_signal(s@) is None,
            },
    {
        let v = str_chars(s);
        let (k1, v1, k2, v2) = match parse_pair_object(&v) {
            Some(t) => t,
            None => {
                return None;
            },
        };
        if chars_eq_str(&k1, "signal_type") && chars_eq_str(&k2, "sdp_data") {
            Self::of_fields(&v1, v2)
        } else if chars_eq_str(&k1, "sdp_data") && chars_eq_str(&k2, "signal_type") {
            Self::of_fields(&v2, v1)
        } else {
            None
        }
    }

    fn of_fields(tag: &Vec<char>, sdp: Vec<char>) -> (r: Option<RtcSignalData>)
        ensures
            match r {
                Some(d) => signal_of_fields(tag@, sdp@) == Some(d@),
                None => signal_of_fields(tag@, sdp@) is None,
            },
    {
        if chars_eq_str(tag, "offer") {
            Some(RtcSignalData::Offer { sdp_data: chars_string(&sdp) })
        } else if chars_eq_str(tag, "answer") {
            Some(RtcSignalData::Answer { sdp_data: chars_string(&sdp) })
        } else {
            None
        }
    }
}

impl RtcMessage {
    /// Serializes this envelope to its wire text.
    pub fn to_wire(&self) -> (s: String)
        ensures
            s@ == envelope_json(self@),
    {
        match self {
            RtcMessage::PublicKey { public_key } => pair_object_string(
                "type",
                "publicKey",
                "publicKey",
                public_key.as_str(),
            ),
            RtcMessage::EncryptedData { encrypted_data } => pair_object_string(
                "type",
                "encryptedData",
                "encryptedData",
                encrypted_data.as_str(),
            ),
        }
    }

    /// Parses a wire text as a channel envelope.
    pub fn from_wire(s: &str) -> (r: Option<RtcMessage>)
        ensures
            match r {
                Some(e) => spec_parse_envelope(s@) == Some(e@),
                None => spec_parse_envelope(s@) is None,
            },
    {
        let v = str_chars(s);
        let (k1, v1, k2, v2) = match parse_pair_object(&v) {
            Some(t) => t,
            None => {
                return None;
            },
        };
        if chars_eq_str(&k1, "type") {
            Self::of_fields(&v1, &k2, v2)
        } else if chars_eq_str(&k2, "type") {
            Self::of_fields(&v2, &k1, v1)
        } else {
            None
        }
    }

    fn of_fields(tag: &Vec<char>, key: &Vec<char>, value: Vec<char>) -> (r: Option<RtcMessage>)
        ensures
            match r {
                Some(e) => envelope_of_fields(tag@, key@, value@) == Some(e@),
                None => envelope_of_fields(tag@, key@, value@) is None,
            },
    {
        if chars_eq_str(tag, "publicKey") && chars_eq_str(key, "publicKey") {
            Some(RtcMessage::PublicKey { public_key: chars_string(&value) })
        } else if chars_eq_str(tag, "encryptedData") && chars_eq_str(key, "encryptedData") {
            Some(RtcMessage::EncryptedData { encrypted_data: chars_string(&value) })
        } else {
            None
        }
    }
}

} // verus!

