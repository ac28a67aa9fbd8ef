//! The load-balancing algorithms, their names, and the request header that picks one.

use crate::text::{
    is_white_space, same_text, trim, trimmed, trimmed_text_has_no_white_space_around_it,
    trimming_keeps_trimmed_text,
};
use vstd::prelude::*;

verus! {

/// A load-balancing algorithm.
#[derive(Clone, Copy, Debug, PartialEq, Eq, Structural)]
pub enum LoadBalancerAlgorithm {
    PowerOfN,
    WaitAndWiden,
    RoundRobin,
    Random,
    Pulsar,
    PulsarWaitAndWiden,
}

impl Default for LoadBalancerAlgorithm {
    fn default() -> (algorithm: Self)
        ensures
            algorithm == LoadBalancerAlgorithm::PowerOfN,
    {
        LoadBalancerAlgorithm::PowerOfN
    }
}

impl LoadBalancerAlgorithm {
    /// The name of the algorithm.
    pub open spec fn label(self) -> Seq<char> {
        match self {
            LoadBalancerAlgorithm::PowerOfN => "power-of-n"@,
            LoadBalancerAlgorithm::WaitAndWiden => "wait-and-widen"@,
            LoadBalancerAlgorithm::RoundRobin => "round-robin"@,
            LoadBalancerAlgorithm::Random => "random"@,
            LoadBalancerAlgorithm::Pulsar => "pulsar"@,
            LoadBalancerAlgorithm::PulsarWaitAndWiden => "pulsar-wait-and-widen"@,
        }
    }

    /// The name of the algorithm.
    pub fn as_str(self) -> (label: &'static str)
        ensures
            label@ == self.label(),
    {
        match self {
            LoadBalancerAlgorithm::PowerOfN => "power-of-n",
            LoadBalancerAlgorithm::WaitAndWiden => "wait-and-widen",
            LoadBalancerAlgorithm::RoundRobin => "round-robin",
            LoadBalancerAlgorithm::Random => "random",
            LoadBalancerAlgorithm::Pulsar => "pulsar",
            LoadBalancerAlgorithm::PulsarWaitAndWiden => "pulsar-wait-and-widen",
        }
    }

    /// All algorithms.
    pub open spec fn all_algorithms() -> Seq<LoadBalancerAlgorithm> {
        seq![
            LoadBalancerAlgorithm::PowerOfN,
            LoadBalancerAlgorithm::WaitAndWiden,
            LoadBalancerAlgorithm::RoundRobin,
            LoadBalancerAlgorithm::Random,
            LoadBalancerAlgorithm::Pulsar,
            LoadBalancerAlgorithm::PulsarWaitAndWiden,
        ]
    }

    /// All algorithms.
    pub fn all() -> (algorithms: Vec<LoadBalancerAlgorithm>)
        ensures
            algorithms@ == LoadBalancerAlgorithm::all_algorithms(),
    {
        let mut algorithms: Vec<LoadBalancerAlgorithm> = Vec::new();
        algorithms.push(LoadBalancerAlgorithm::PowerOfN);
        algorithms.push(LoadBalancerAlgorithm::WaitAndWiden);
        algorithms.push(LoadBalancerAlgorithm::RoundRobin);
        algorithms.push(LoadBalancerAlgorithm::Random);
        algorithms.push(LoadBalancerAlgorithm::Pulsar);
        algorithms.push(LoadBalancerAlgorithm::PulsarWaitAndWiden);
        assert(algorithms@ =~= LoadBalancerAlgorithm::all_algorithms());
        algorithms
    }
}

/// The algorithm that goes by a name: its own, or one that it had before.
pub open spec fn algorithm_named(name: Seq<char>) -> Option<LoadBalancerAlgorithm> {
    if name == "power-of-n"@ || name == "power-of-two"@ || name == "powerOf2"@ || name
        == "powerOfN"@ || name == "powerof2"@ || name == "powerofn"@ {
        Some(LoadBalancerAlgorithm::PowerOfN)
    } else if name == "wait-and-widen"@ || name == "groq-multiregion"@ {
        Some(LoadBalancerAlgorithm::WaitAndWiden)
    } else if name == "round-robin"@ {
        Some(LoadBalancerAlgorithm::RoundRobin)
    } else if name == "random"@ {
        Some(LoadBalancerAlgorithm::Random)
    } else if name == "pulsar"@ {
        Some(LoadBalancerAlgorithm::Pulsar)
    } else if name == "pulsar-wait-and-widen"@ || name == "pulsar-multiregion"@ {
        Some(LoadBalancerAlgorithm::PulsarWaitAndWiden)
    } else {
        None
    }
}

/// The algorithm that goes by a name.
pub fn algorithm_from_name(name: &str) -> (algorithm: Option<LoadBalancerAlgorithm>)
    ensures
        algorithm == algorithm_named(name@),
{
    if same_text(name, "power-of-n") || same_text(name, "power-of-two") || same_text(
        name,
        "powerOf2",
    ) || same_text(name, "powerOfN") || same_text(name, "powerof2") || same_text(name, "powerofn") {
        Some(LoadBalancerAlgorithm::PowerOfN)
    } else if same_text(name, "wait-and-widen") || same_text(name, "groq-multiregion") {
        Some(LoadBalancerAlgorithm::WaitAndWiden)
    } else if same_text(name, "round-robin") {
        Some(LoadBalancerAlgorithm::RoundRobin)
    } else if same_text(name, "random") {
        Some(LoadBalancerAlgorithm::Random)
    } else if same_text(name, "pulsar") {
        Some(LoadBalancerAlgorithm::Pulsar)
    } else if same_text(name, "pulsar-wait-and-widen") || same_text(name, "pulsar-multiregion") {
        Some(LoadBalancerAlgorithm::PulsarWaitAndWiden)
    } else {
        None
    }
}

/// A character of a header value as it counts: in lower case, and a hyphen for an underscore.
pub open spec fn header_char(c: char) -> char {
    if 'A' <= c && c <= 'Z' {
        ((c as u8) + 32) as u8 as char
    } else if c == '_' {
        '-'
    } else {
        c
    }
}

/// A header value as it counts.
pub open spec fn header_text(text: Seq<char>) -> Seq<char> {
    Seq::new(text.len(), |i: int| header_char(text[i]))
}

fn counted_char(c: char) -> (counted: char)
    ensures
        counted == header_char(c),
{
    if 'A' <= c && c <= 'Z' {
        ((c as u8) + 32) as char
    } else if c == '_' {
        '-'
    } else {
        c
    }
}

/// Whether a header value counts as a name.
fn counts_as(text: &str, name: &str) -> (same: bool)
    ensures
        same == (header_text(text@) == name@),
{
    let length: usize = text.unicode_len();
    if length != name.unicode_len() {
        assert(header_text(text@).len() != name@.len());
        return false;
    }
    let mut at: usize = 0;
    while at < length
        invariant
            at <= length == text@.len() == name@.len(),
            forall|i: int| 0 <= i < at ==> header_char(text@[i]) == name@[i],
        decreases length - at,
    {
        if counted_char(text.get_char(at)) != name.get_char(at) {
            assert(header_text(text@)[at as int] != name@[at as int]);
            return false;
        }
        at = at + 1;
    }
    assert(header_text(text@) =~= name@);
    true
}

/// The algorithm that goes by a header value.
fn algorithm_from_header(text: &str) -> (algorithm: Option<LoadBalancerAlgorithm>)
    ensures
        algorithm == algorithm_named(header_text(text@)),
{
    if counts_as(text, "power-of-n") || counts_as(text, "power-of-two") || counts_as(
        text,
        "powerOf2",
    ) || counts_as(text, "powerOfN") || counts_as(text, "powerof2") || counts_as(text, "powerofn") {
        Some(LoadBalancerAlgorithm::PowerOfN)
    } else if counts_as(text, "wait-and-widen") || counts_as(text, "groq-multiregion") {
        Some(LoadBalancerAlgorithm::WaitAndWiden)
    } else if counts_as(text, "round-robin") {
        Some(LoadBalancerAlgorithm::RoundRobin)
    } else if counts_as(text, "random") {
        Some(LoadBalancerAlgorithm::Random)
    } else if counts_as(text, "pulsar") {
        Some(LoadBalancerAlgorithm::Pulsar)
    } else if counts_as(text, "pulsar-wait-and-widen") || counts_as(text, "pulsar-multiregion") {
        Some(LoadBalancerAlgorithm::PulsarWaitAndWiden)
    } else {
        None
    }
}

/// A request's own choice of algorithm.
#[derive(Clone, Debug, PartialEq, Eq)]
pub struct LoadBalancerAlgorithmOverride {
    raw: String,
    algorithm: LoadBalancerAlgorithm,
}

/// Why a request's choice of algorithm cannot be followed.
#[derive(Clone, Debug, PartialEq, Eq)]
pub enum LoadBalancerRoutingAlgorithmError {
    /// There is no such algorithm.
    Unknown { raw: String },
    /// The algorithm is not configured for the model.
    Unavailable { raw: String, algorithm: LoadBalancerAlgorithm },
}

impl LoadBalancerAlgorithmOverride {
    /// The value that the request gave, without the white space around it.
    pub closed spec fn raw(&self) -> Seq<char> {
        self.raw@
    }

    /// The algorithm that the request picked.
    pub closed spec fn picked(&self) -> LoadBalancerAlgorithm {
        self.algorithm
    }

    /// Reads the header value by which a request picks an algorithm. White space around it,
    /// upper case, and underscores for hyphens make no difference.
    pub fn parse(value: &str) -> (parsed: Result<Self, LoadBalancerRoutingAlgorithmError>)
        ensures
            match (parsed, algorithm_named(header_text(trimmed(value@)))) {
                (Ok(picked), Some(algorithm)) => picked.raw() == trimmed(value@) && picked.picked()
                    == algorithm,
                (
                    Err(LoadBalancerRoutingAlgorithmError::Unknown { raw }),
                    None,
                ) => raw@ == trimmed(value@),
                _ => false,
            },
    {
        let raw: &str = trim(value);
        match algorithm_from_header(raw) {
            Some(algorithm) => Ok(
                LoadBalancerAlgorithmOverride { raw: raw.to_owned(), algorithm },
            ),
            None => Err(LoadBalancerRoutingAlgorithmError::Unknown { raw: raw.to_owned() }),
        }
    }

    /// The value that the request gave, without the white space around it.
    pub fn requested_algorithm(&self) -> (raw: &str)
        ensures
            raw@ == self.raw(),
    {
        self.raw.as_str()
    }

    /// The algorithm that the request picked.
    pub fn algorithm(&self) -> (algorithm: LoadBalancerAlgorithm)
        ensures
            algorithm == self.picked(),
    {
        self.algorithm
    }
}

impl LoadBalancerRoutingAlgorithmError {
    /// The value that the request gave.
    pub open spec fn raw(&self) -> Seq<char> {
        match self {
            LoadBalancerRoutingAlgorithmError::Unknown { raw } => raw@,
            LoadBalancerRoutingAlgorithmError::Unavailable { raw, algorithm } => raw@,
        }
    }

    /// The value that the request gave.
    pub fn requested_algorithm(&self) -> (raw: &str)
        ensures
            raw@ == self.raw(),
    {
        match self {
            LoadBalancerRoutingAlgorithmError::Unknown { raw } => raw.as_str(),
            LoadBalancerRoutingAlgorithmError::Unavailable { raw, algorithm } => raw.as_str(),
        }
    }

    /// A word for the reason.
    pub fn reason(&self) -> (reason: &'static str)
        ensures
            reason@ == match self {
                LoadBalancerRoutingAlgorithmError::Unknown { .. } => "unknown"@,
                LoadBalancerRoutingAlgorithmError::Unavailable { .. } => "unavailable"@,
            },
    {
        match self {
            LoadBalancerRoutingAlgorithmError::Unknown { .. } => "unknown",
            LoadBalancerRoutingAlgorithmError::Unavailable { .. } => "unavailable",
        }
    }
}

/// Every algorithm goes by its own name, and no two algorithms share a name.
pub proof fn algorithms_go_by_their_names(algorithm: LoadBalancerAlgorithm)
    ensures
        algorithm_named(algorithm.label()) == Some(algorithm),
{
    reveal_strlit("power-of-n");
    reveal_strlit("power-of-two");
    reveal_strlit("powerOf2");
    reveal_strlit("powerOfN");
    reveal_strlit("powerof2");
    reveal_strlit("powerofn");
    reveal_strlit("wait-and-widen");
    reveal_strlit("groq-multiregion");
    reveal_strlit("round-robin");
    reveal_strlit("random");
    reveal_strlit("pulsar");
    reveal_strlit("pulsar-wait-and-widen");
    reveal_strlit("pulsar-multiregion");
    assert("power-of-n"@.len() == 10);
    assert("power-of-two"@.len() == 12);
    assert("powerOf2"@.len() == 8);
    assert("powerOfN"@.len() == 8);
    assert("powerof2"@.len() == 8);
    assert("powerofn"@.len() == 8);
    assert("wait-and-widen"@.len() == 14);
    assert("groq-multiregion"@.len() == 16);
    assert("round-robin"@.len() == 11);
    assert("random"@.len() == 6);
    assert("pulsar"@.len() == 6);
    assert("pulsar-wait-and-widen"@.len() == 21);
    assert("pulsar-multiregion"@.len() == 18);
    assert("random"@[0] != "pulsar"@[0]);
}

/// Writing a name in upper case or with underscores picks the same algorithm.
pub proof fn header_spelling_makes_no_difference(value: Seq<char>, other: Seq<char>)
    requires
        header_text(value) == header_text(other),
    ensures
        algorithm_named(header_text(value)) == algorithm_named(header_text(other)),
        header_text(header_text(value)) == header_text(value),
{
    assert forall|i: int| 0 <= i < value.len() implies header_char(
        header_char(#[trigger] value[i]),
    ) == header_char(value[i]) by {
        let c = value[i];
        if 'A' <= c && c <= 'Z' {
            assert(97 <= (c as u8) + 32 <= 122);
        }
    }
    assert(header_text(header_text(value)) =~= header_text(value));
}

/// A character counts as white space in a header value where it is white space.
proof fn lemma_header_white_space(c: char)
    ensures
        is_white_space(header_char(c)) == is_white_space(c),
{
    if 'A' <= c && c <= 'Z' {
        assert(97 <= (c as u8) + 32 <= 122);
    }
}

/// A header value, and the same without white space around it, in lower case and with hyphens for
/// underscores, pick the same algorithm; of the latter there is nothing left to trim.
pub proof fn normalized_values_are_read_alike(value: Seq<char>)
    ensures
        ({
            let normalized = header_text(trimmed(value));
            &&& trimmed(normalized) == normalized
            &&& algorithm_named(header_text(trimmed(normalized))) == algorithm_named(
                header_text(trimmed(value)),
            )
        }),
{
    let raw = trimmed(value);
    let normalized = header_text(raw);
    trimmed_text_has_no_white_space_around_it(value);
    if raw.len() > 0 {
        lemma_header_white_space(raw[0]);
        lemma_header_white_space(raw.last());
    }
    trimming_keeps_trimmed_text(normalized);
    header_spelling_makes_no_difference(raw, raw);
}

/// A text with underscores for hyphens.
pub open spec fn underscored(text: Seq<char>) -> Seq<char> {
    Seq::new(
        text.len(),
        |i: int|
            if text[i] == '-' {
                '_'
            } else {
                text[i]
            },
    )
}

/// Whether a text is made of lower case letters and hyphens, and has letters at both ends.
pub open spec fn is_hyphenated(text: Seq<char>) -> bool {
    &&& text.len() > 0
    &&& text[0] != '-'
    &&& text.last() != '-'
    &&& forall|i: int| 0 <= i < text.len() ==> 'a' <= #[trigger] text[i] <= 'z' || text[i] == '-'
}

/// Names of algorithms are made of lower case letters and hyphens.
proof fn lemma_label_is_hyphenated(algorithm: LoadBalancerAlgorithm)
    ensures
        is_hyphenated(algorithm.label()),
{
    reveal_strlit("power-of-n");
    reveal_strlit("wait-and-widen");
    reveal_strlit("round-robin");
    reveal_strlit("random");
    reveal_strlit("pulsar");
    reveal_strlit("pulsar-wait-and-widen");
}

/// A request picks every algorithm by its name, with hyphens or with underscores, and the value
/// that is kept of it is that name.
pub proof fn names_are_read_as_their_algorithms(
    algorithm: LoadBalancerAlgorithm,
    value: Seq<char>,
)
    requires
        value == algorithm.label() || value == underscored(algorithm.label()),
    ensures
        trimmed(value) == value,
        algorithm_named(header_text(trimmed(value))) == Some(algorithm),
{
    let label = algorithm.label();
    lemma_label_is_hyphenated(algorithm);
    assert(value.len() == label.len());
    assert(value[0] == label[0] && value.last() == label.last());
    trimming_keeps_trimmed_text(value);
    assert forall|i: int| 0 <= i < value.len() implies header_char(#[trigger] value[i])
        == label[i] by {
        assert('a' <= label[i] <= 'z' || label[i] == '-');
    }
    assert(header_text(value) =~= label);
    algorithms_go_by_their_names(algorithm);
}

/// Whether a text is a spelling of a name: letter for letter the same but for upper case, with
/// underscores for hyphens.
pub open spec fn is_spelling(text: Seq<char>, name: Seq<char>) -> bool {
    &&& text.len() == name.len()
    &&& forall|i: int|
        0 <= i < name.len() ==> {
            ||| #[trigger] text[i] == name[i]
            ||| 'a' <= name[i] && name[i] <= 'z' && text[i] as u32 + 32 == name[i] as u32
            ||| name[i] == '-' && text[i] == '_'
        }
}

/// A request picks an algorithm by any spelling of its name, whatever white space stands around it, and
/// is told what it asked for without it.
pub proof fn any_spelling_of_a_name_picks_the_algorithm(
    value: &str,
    algorithm: LoadBalancerAlgorithm,
    parsed: Result<LoadBalancerAlgorithmOverride, LoadBalancerRoutingAlgorithmError>,
)
    requires
        call_ensures(LoadBalancerAlgorithmOverride::parse, (value,), parsed),
        is_spelling(trimmed(value@), algorithm.label()),
    ensures
        parsed is Ok,
        parsed->Ok_0.picked() == algorithm,
        parsed->Ok_0.raw() == trimmed(value@),
{
    let text = trimmed(value@);
    let name = algorithm.label();
    lemma_label_is_hyphenated(algorithm);
    assert forall|i: int| 0 <= i < name.len() implies header_char(#[trigger] text[i]) == name[i] by {
        let c = text[i];
        if 'A' <= c && c <= 'Z' {
            let code = c as u8;
            assert(code == c as u32);
            assert(((code + 32) as u8) as char as u32 == c as u32 + 32);
        }
    }
    assert(header_text(text) =~= name);
    algorithms_go_by_their_names(algorithm);
}

/// Older names are read as the algorithms that have taken their place; what names no algorithm is
/// refused, and so is what is asked for and not offered.
pub proof fn older_names_are_still_read(
    name: &str,
    algorithm: Option<LoadBalancerAlgorithm>,
    error: LoadBalancerRoutingAlgorithmError,
    reason: &'static str,
)
    requires
        call_ensures(algorithm_from_name, (name,), algorithm),
        call_ensures(LoadBalancerRoutingAlgorithmError::reason, (&error,), reason),
    ensures
        name@ == "power-of-two"@ || name@ == "powerOf2"@ || name@ == "powerOfN"@ || name@
            == "powerof2"@ || name@ == "powerofn"@ ==> algorithm == Some(
            LoadBalancerAlgorithm::PowerOfN,
        ),
        name@ == "groq-multiregion"@ ==> algorithm == Some(LoadBalancerAlgorithm::WaitAndWiden),
        name@ == "pulsar-multiregion"@ ==> algorithm == Some(
            LoadBalancerAlgorithm::PulsarWaitAndWiden,
        ),
        error is Unknown ==> reason@ == "unknown"@,
        error is Unavailable ==> reason@ == "unavailable"@,
{
    reveal_strlit("power-of-two");
    reveal_strlit("powerOf2");
    reveal_strlit("powerOfN");
    reveal_strlit("powerof2");
    reveal_strlit("powerofn");
    reveal_strlit("groq-multiregion");
    reveal_strlit("pulsar-multiregion");
    reveal_strlit("power-of-n");
    reveal_strlit("wait-and-widen");
    reveal_strlit("round-robin");
    reveal_strlit("random");
    reveal_strlit("pulsar");
    reveal_strlit("pulsar-wait-and-widen");
    if name@ == "groq-multiregion"@ || name@ == "pulsar-multiregion"@ {
        assert(name@.len() > 14);
    }
}

} // verus!
