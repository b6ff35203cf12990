//! The input classifier: given an arbitrary scanned or pasted string, decide
//! what it is and where it goes.
//!
//! The priority order is fixed and load-bearing: a signaling descriptor is
//! recognized first, then a public key, then a private key, and only then the
//! base64 heuristic for sealed payloads — a descriptor or key could otherwise
//! be swallowed by the heuristic.  The heuristic itself is a shape check:
//! characters of the standard base64 alphabet, then at most two `=` padding
//! characters, with the whole string strictly between 50 and 2000 characters
//! long.

use vstd::prelude::*;

verus! {

use crate::codec::RtcSignalData;
use crate::codec::SignalView;
use crate::codec::spec_parse_signal;
use crate::crypto::valid_private_key;
use crate::crypto::valid_public_key;
use vstd::string::StrSliceExecFns;

/// A character of the standard base64 alphabet (padding not included).
pub open spec fn is_b64_char(c: char) -> bool {
    ||| 65 <= (c as u32) <= 90
    ||| 97 <= (c as u32) <= 122
    ||| 48 <= (c as u32) <= 57
    ||| c == '+'
    ||| c == '/'
}

/// Base64 shape: alphabet characters, then at most two trailing `=`.
pub open spec fn is_b64_text(s: Seq<char>) -> bool {
    &&& forall|i: int| 0 <= i < s.len() ==> (is_b64_char(#[trigger] s[i]) || s[i] == '=')
    &&& forall|i: int, j: int| 0 <= i < j < s.len() && #[trigger] s[i] == '=' ==> #[trigger] s[j]
        == '='
    &&& forall|i: int| 0 <= i < s.len() && #[trigger] s[i] == '=' ==> i + 2 >= s.len()
}

fn is_b64_char_exec(c: char) -> (b: bool)
    ensures
        b == is_b64_char(c),
{
    let u = c as u32;
    (65 <= u && u <= 90) || (97 <= u && u <= 122) || (48 <= u && u <= 57) || c == '+' || c == '/'
}

/// Whether a string has base64 shape.
pub fn is_base64_text(s: &str) -> (b: bool)
    ensures
        b == is_b64_text(s@),
{
    let n = s.unicode_len();
    let mut i: usize = 0;
    let mut first_eq: Option<usize> = None;
    while i < n
        invariant
            i <= n,
            n == s@.len(),
            forall|j: int| 0 <= j < i ==> (is_b64_char(#[trigger] s@[j]) || s@[j] == '='),
            match first_eq {
                Option::None => forall|j: int| 0 <= j < i ==> #[trigger] s@[j] != '=',
                Option::Some(p) => p < i && s@[p as int] == '=' && (forall|j: int|
                    p <= j < i ==> #[trigger] s@[j] == '=') && (forall|j: int|
                    0 <= j < p ==> #[trigger] s@[j] != '='),
            },
        decreases n - i,
    {
        let c = s.get_char(i);
        if is_b64_char_exec(c) {
            if first_eq.is_some() {
                proof {
                    assert(s@[i as int] != '=');
                }
                return false;
            }
        } else if c == '=' {
            if first_eq.is_none() {
                first_eq = Some(i);
            }
        } else {
            proof {
                assert(!(is_b64_char(s@[i as int]) || s@[i as int] == '='));
            }
            return false;
        }
        i = i + 1;
    }
    match first_eq {
        Some(p) => {
            if n - p > 2 {
                proof {
                    assert(s@[p as int] == '=' && p + 2 < s@.len());
                }
                false
            } else {
                true
            }
        },
        None => true,
    }
}

/// Where a scanned or pasted string is routed.
pub enum Route {
    /// A signaling descriptor, for the connection controller.
    Signal { descriptor: RtcSignalData },
    /// A public key, for the add-contact flow.
    PublicKey { public_key: String },
    /// A private key.  Kept distinct from `PublicKey` so callers can confirm
    /// an import instead of silently filing someone's private key as a
    /// contact.
    PrivateKey { private_key: String },
    /// A plausible sealed payload, for the decrypt-with-own-key flow.
    Ciphertext { ciphertext: String },
    /// Anything else, for the display-raw-text flow.
    Text { text: String },
}

/// The mathematical value of a routing decision.
pub enum RouteView {
    Signal { descriptor: SignalView },
    PublicKey { public_key: Seq<char> },
    PrivateKey { private_key: Seq<char> },
    Ciphertext { ciphertext: Seq<char> },
    Text { text: Seq<char> },
}

impl View for Route {
    type V = RouteView;

    open spec fn view(&self) -> RouteView {
        match self {
            Route::Signal { descriptor } => RouteView::Signal { descriptor: descriptor@ },
            Route::PublicKey { public_key } => RouteView::PublicKey { public_key: public_key@ },
            Route::PrivateKey { private_key } => RouteView::PrivateKey {
                private_key: private_key@,
            },
            Route::Ciphertext { ciphertext } => RouteView::Ciphertext { ciphertext: ciphertext@ },
            Route::Text { text } => RouteView::Text { text: text@ },
        }
    }
}

/// The classification of a string, in the fixed priority order.
pub open spec fn classify_spec(s: Seq<char>) -> RouteView {
    if spec_parse_signal(s) is Some {
        RouteView::Signal { descriptor: spec_parse_signal(s)->Some_0 }
    } else if valid_public_key(s) {
        RouteView::PublicKey { public_key: s }
    } else if valid_private_key(s) {
        RouteView::PrivateKey { private_key: s }
    } else if is_b64_text(s) && 50 < s.len() < 2000 {
        RouteView::Ciphertext { ciphertext: s }
    } else {
        RouteView::Text { text: s }
    }
}

/// Classifies a scanned or pasted string.
pub fn classify(input: &str) -> (r: Route)
    ensures
        r@ == classify_spec(input@),
{
    if let Some(descriptor) = RtcSignalData::from_wire(input) {
        return Route::Signal { descriptor };
    }
    if crate::crypto::validate_public_key(input) {
        return Route::PublicKey { public_key: input.to_owned() };
    }
    if crate::crypto::validate_private_key(input) {
        return Route::PrivateKey { private_key: input.to_owned() };
    }
    let n = input.unicode_len();
    if is_base64_text(input) && 50 < n && n < 2000 {
        return Route::Ciphertext { ciphertext: input.to_owned() };
    }
    Route::Text { text: input.to_owned() }
}

/// Classifier priority law: a string that parses as a signal is routed as a
/// signal, whatever else it resembles — in particular even when it also has
/// base64 shape and heuristic length.
pub proof fn lemma_signal_priority(s: Seq<char>)
    requires
        spec_parse_signal(s) is Some,
    ensures
        classify_spec(s) == (RouteView::Signal { descriptor: spec_parse_signal(s)->Some_0 }),
{
}

/// Classifier boundary law: the length bounds of the base64 heuristic are
/// exclusive.  A string that reaches the heuristic is not routed to decrypt
/// at length exactly 50 or 2000, and is routed to decrypt at length 51 or
/// 1999 when it has base64 shape.
pub proof fn lemma_base64_boundary(s: Seq<char>)
    requires
        spec_parse_signal(s) is None,
        !valid_public_key(s),
        !valid_private_key(s),
    ensures
        s.len() == 50 || s.len() == 2000 ==> classify_spec(s) == (RouteView::Text { text: s }),
        is_b64_text(s) && (s.len() == 51 || s.len() == 1999) ==> classify_spec(s) == (
        RouteView::Ciphertext { ciphertext: s }),
{
}

/// The event a scanned string raises, as an event-name / payload pair: the
/// route of `classify_spec`, with both key kinds feeding the add-contact
/// flow and raw text prefixed for display.
pub open spec fn qr_event_of(s: Seq<char>) -> (Seq<char>, Seq<char>) {
    match classify_spec(s) {
        RouteView::Signal { .. } => ("process_rtc_signal"@, s),
        RouteView::PublicKey { .. } => ("add_contact"@, s),
        RouteView::PrivateKey { .. } => ("add_contact"@, s),
        RouteView::Ciphertext { .. } => ("decrypt_message"@, s),
        RouteView::Text { .. } => ("show_dialog"@, "Read data: "@ + s),
    }
}

/// Processes a scanned string into the event it raises.
pub fn process_qr_data(data: &str) -> (r: (String, String))
    ensures
        (r.0@, r.1@) == qr_event_of(data@),
{
    match classify(data) {
        Route::Signal { .. } => (String::from_str("process_rtc_signal"), data.to_owned()),
        Route::PublicKey { .. } => (String::from_str("add_contact"), data.to_owned()),
        Route::PrivateKey { .. } => (String::from_str("add_contact"), data.to_owned()),
        Route::Ciphertext { .. } => (String::from_str("decrypt_message"), data.to_owned()),
        Route::Text { .. } => {
            let mut msg = String::from_str("Read data: ");
            msg.append(data);
            (String::from_str("show_dialog"), msg)
        },
    }
}

} // verus!
