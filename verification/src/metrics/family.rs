//! Families of counters and gauges that are exported together. The samples of a family are told
//! apart by the values of its labels.

use crate::text::stands_at;
use prometheus::Encoder;
use vstd::prelude::*;

verus! {

#[verifier::external_type_specification]
#[verifier::external_body]
pub struct ExRegistry(prometheus::Registry);

/// A family of counters. It holds a `prometheus::IntCounterVec`.
#[verifier::external_body]
pub struct CounterFamily {
    vec: prometheus::IntCounterVec,
}

/// A family of gauges. It holds a `prometheus::IntGaugeVec`.
#[verifier::external_body]
pub struct GaugeFamily {
    vec: prometheus::IntGaugeVec,
}

/// A family could not be made, registered or exported.
#[derive(Clone, Copy, Debug, PartialEq, Eq, Structural)]
pub struct MetricsError {}

/// The key under which prometheus finds the sample with given label values.
pub uninterp spec fn sample_key(labels: Seq<Seq<char>>) -> u64;

/// The samples of a family of counters by key: the label values that a sample was made with, and
/// its count.
pub uninterp spec fn counter_samples(family: CounterFamily) -> Map<u64, (Seq<Seq<char>>, u64)>;

/// The name, the description and the labels of a family of counters.
pub uninterp spec fn counter_description(family: CounterFamily) -> (
    Seq<char>,
    Seq<char>,
    Seq<Seq<char>>,
);

/// The mark of the registry that a family of counters was entered into.
pub uninterp spec fn counter_home(family: CounterFamily) -> int;

/// The samples of a family of gauges by key: the label values that a sample was made with, and its
/// level.
pub uninterp spec fn gauge_samples(family: GaugeFamily) -> Map<u64, (Seq<Seq<char>>, i64)>;

/// The name, the description and the labels of a family of gauges.
pub uninterp spec fn gauge_description(family: GaugeFamily) -> (
    Seq<char>,
    Seq<char>,
    Seq<Seq<char>>,
);

/// The mark of the registry that a family of gauges was entered into.
pub uninterp spec fn gauge_home(family: GaugeFamily) -> int;

/// A mark that all handles on a registry share, and that no other registry has.
pub uninterp spec fn registry_mark(registry: prometheus::Registry) -> int;

/// The number of labels of a family of counters.
pub open spec fn counter_labels(family: CounterFamily) -> nat {
    counter_description(family).2.len()
}

/// The number of labels of a family of gauges.
pub open spec fn gauge_labels(family: GaugeFamily) -> nat {
    gauge_description(family).2.len()
}

/// The families that were entered into a registry, in order, by name, description and labels, as
/// long as there is no other handle on the registry through which more could be entered.
pub uninterp spec fn registry_families(registry: prometheus::Registry) -> Option<
    Seq<(Seq<char>, Seq<char>, Seq<Seq<char>>)>,
>;

/// Whether prometheus makes a family and takes it into a registry that holds given families. It
/// goes by rules for names and labels, and by hashes of the names.
pub uninterp spec fn is_registrable(
    before: Seq<(Seq<char>, Seq<char>, Seq<Seq<char>>)>,
    family: (Seq<char>, Seq<char>, Seq<Seq<char>>),
) -> bool;

/// Whether prometheus takes all of a list of families into one registry, one after the other.
pub open spec fn all_registrable(families: Seq<(Seq<char>, Seq<char>, Seq<Seq<char>>)>) -> bool {
    forall|i: int|
        0 <= i < families.len() ==> is_registrable(families.take(i), #[trigger] families[i])
}

/// A registry into which no family was entered.
pub open spec fn no_families() -> Option<Seq<(Seq<char>, Seq<char>, Seq<Seq<char>>)>> {
    Some(Seq::empty())
}

/// The contents of label values.
pub open spec fn label_texts(labels: Seq<&str>) -> Seq<Seq<char>> {
    Seq::new(labels.len(), |i: int| labels[i]@)
}

/// No counters.
pub open spec fn no_counters() -> Map<u64, (Seq<Seq<char>>, u64)> {
    Map::empty()
}

/// No gauges.
pub open spec fn no_gauges() -> Map<u64, (Seq<Seq<char>>, i64)> {
    Map::empty()
}

/// The value of a counter, 0 where there is no sample yet.
pub open spec fn counted(samples: Map<u64, (Seq<Seq<char>>, u64)>, key: u64) -> u64 {
    if samples.contains_key(key) {
        samples[key].1
    } else {
        0
    }
}

/// The label values that a counter was made with, the given ones where there is no sample yet.
pub open spec fn counter_labelled(
    samples: Map<u64, (Seq<Seq<char>>, u64)>,
    labels: Seq<Seq<char>>,
) -> Seq<Seq<char>> {
    if samples.contains_key(sample_key(labels)) {
        samples[sample_key(labels)].0
    } else {
        labels
    }
}

/// The value of a gauge, 0 where there is no sample yet.
pub open spec fn gauged(samples: Map<u64, (Seq<Seq<char>>, i64)>, key: u64) -> i64 {
    if samples.contains_key(key) {
        samples[key].1
    } else {
        0
    }
}

/// The label values that a gauge was made with, the given ones where there is no sample yet.
pub open spec fn gauge_labelled(
    samples: Map<u64, (Seq<Seq<char>>, i64)>,
    labels: Seq<Seq<char>>,
) -> Seq<Seq<char>> {
    if samples.contains_key(sample_key(labels)) {
        samples[sample_key(labels)].0
    } else {
        labels
    }
}

/// The sum of two counts, starting over at 0 behind the largest number.
pub open spec fn counter_sum(a: u64, b: u64) -> u64 {
    if a + b <= u64::MAX {
        (a + b) as u64
    } else {
        (a + b - u64::MAX - 1) as u64
    }
}

/// The sum of two levels, starting over at the other end of the numbers.
pub open spec fn gauge_sum(a: i64, b: i64) -> i64 {
    if a + b > i64::MAX {
        (a + b - u64::MAX - 1) as i64
    } else if a + b < i64::MIN {
        (a + b + u64::MAX + 1) as i64
    } else {
        (a + b) as i64
    }
}

/// The samples after a counter went up.
pub open spec fn counted_up(
    samples: Map<u64, (Seq<Seq<char>>, u64)>,
    labels: Seq<Seq<char>>,
    by: u64,
) -> Map<u64, (Seq<Seq<char>>, u64)> {
    let key = sample_key(labels);
    samples.insert(key, (counter_labelled(samples, labels), counter_sum(counted(samples, key), by)))
}

/// The samples after a gauge was set.
pub open spec fn gauge_set(
    samples: Map<u64, (Seq<Seq<char>>, i64)>,
    labels: Seq<Seq<char>>,
    value: i64,
) -> Map<u64, (Seq<Seq<char>>, i64)> {
    samples.insert(sample_key(labels), (gauge_labelled(samples, labels), value))
}

/// The samples after a gauge was moved.
pub open spec fn gauge_moved(
    samples: Map<u64, (Seq<Seq<char>>, i64)>,
    labels: Seq<Seq<char>>,
    by: i64,
) -> Map<u64, (Seq<Seq<char>>, i64)> {
    let key = sample_key(labels);
    samples.insert(key, (gauge_labelled(samples, labels), gauge_sum(gauged(samples, key), by)))
}

/// An empty registry, from `prometheus::Registry::new`.
#[verifier::external_body]
pub(crate) fn new_registry() -> (registry: prometheus::Registry)
    ensures
        registry_families(registry) == no_families(),
{
    prometheus::Registry::new()
}

/// Makes a family of counters with `prometheus::IntCounterVec::new` and enters it into a registry
/// with `prometheus::Registry::register`. It has the given name, description and labels, and no
/// samples.
#[verifier::external_body]
pub(crate) fn new_counter_family(
    registry: &mut prometheus::Registry,
    name: &str,
    help: &str,
    labels: &[&str],
) -> (family: Result<CounterFamily, MetricsError>)
    requires
        registry_families(*old(registry)) is Some,
    ensures
        family is Ok <==> is_registrable(
            registry_families(*old(registry))->0,
            (name@, help@, label_texts(labels@)),
        ),
        family is Ok ==> registry_families(*final(registry)) == Some(
            registry_families(*old(registry))->0.push((name@, help@, label_texts(labels@))),
        ),
        registry_mark(*final(registry)) == registry_mark(*old(registry)),
        family is Ok ==> counter_home(family->Ok_0) == registry_mark(*old(registry)),
        family is Ok ==> counter_description(family->Ok_0) == (name@, help@, label_texts(labels@)),
        family is Ok ==> counter_samples(family->Ok_0) == no_counters(),
{
    let vec = prometheus::IntCounterVec::new(prometheus::Opts::new(name, help), labels)
        .map_err(|_| MetricsError {})?;
    registry.register(Box::new(vec.clone())).map_err(|_| MetricsError {})?;
    Ok(CounterFamily { vec })
}

/// Makes a family of gauges with `prometheus::IntGaugeVec::new` and enters it into a registry with
/// `prometheus::Registry::register`. It has the given name, description and labels, and no
/// samples.
#[verifier::external_body]
pub(crate) fn new_gauge_family(
    registry: &mut prometheus::Registry,
    name: &str,
    help: &str,
    labels: &[&str],
) -> (family: Result<GaugeFamily, MetricsError>)
    requires
        registry_families(*old(registry)) is Some,
    ensures
        family is Ok <==> is_registrable(
            registry_families(*old(registry))->0,
            (name@, help@, label_texts(labels@)),
        ),
        family is Ok ==> registry_families(*final(registry)) == Some(
            registry_families(*old(registry))->0.push((name@, help@, label_texts(labels@))),
        ),
        registry_mark(*final(registry)) == registry_mark(*old(registry)),
        family is Ok ==> gauge_home(family->Ok_0) == registry_mark(*old(registry)),
        family is Ok ==> gauge_description(family->Ok_0) == (name@, help@, label_texts(labels@)),
        family is Ok ==> gauge_samples(family->Ok_0) == no_gauges(),
{
    let vec = prometheus::IntGaugeVec::new(prometheus::Opts::new(name, help), labels)
        .map_err(|_| MetricsError {})?;
    registry.register(Box::new(vec.clone())).map_err(|_| MetricsError {})?;
    Ok(GaugeFamily { vec })
}

/// Adds to the counter with given label values through `with_label_values` and `inc_by`, which
/// make the counter at 0 if there is none, and start over at 0 behind the largest number. The
/// number of label values has to be right: `with_label_values` panics otherwise. Samples are found
/// by a hash of the label values, so two with one hash are one sample.
#[verifier::external_body]
pub(crate) fn add_to_counter(family: &mut CounterFamily, labels: &[&str], by: u64)
    requires
        labels@.len() == counter_labels(*old(family)),
    ensures
        counter_home(*final(family)) == counter_home(*old(family)),
        counter_description(*final(family)) == counter_description(*old(family)),
        counter_samples(*final(family)) == counted_up(
            counter_samples(*old(family)),
            label_texts(labels@),
            by,
        ),
{
    family.vec.with_label_values(labels).inc_by(by)
}

/// Sets the gauge with given label values through `with_label_values` and `set`, which make the
/// gauge if there is none. The number of label values has to be right: `with_label_values` panics
/// otherwise.
#[verifier::external_body]
pub(crate) fn set_gauge(family: &mut GaugeFamily, labels: &[&str], value: i64)
    requires
        labels@.len() == gauge_labels(*old(family)),
    ensures
        gauge_home(*final(family)) == gauge_home(*old(family)),
        gauge_description(*final(family)) == gauge_description(*old(family)),
        gauge_samples(*final(family)) == gauge_set(
            gauge_samples(*old(family)),
            label_texts(labels@),
            value,
        ),
{
    family.vec.with_label_values(labels).set(value)
}

/// Moves the gauge with given label values through `with_label_values` and `add`, which make the
/// gauge at 0 if there is none, and start over at the other end of the numbers. The number of
/// label values has to be right: `with_label_values` panics otherwise.
#[verifier::external_body]
pub(crate) fn move_gauge(family: &mut GaugeFamily, labels: &[&str], by: i64)
    requires
        labels@.len() == gauge_labels(*old(family)),
    ensures
        gauge_home(*final(family)) == gauge_home(*old(family)),
        gauge_description(*final(family)) == gauge_description(*old(family)),
        gauge_samples(*final(family)) == gauge_moved(
            gauge_samples(*old(family)),
            label_texts(labels@),
            by,
        ),
{
    family.vec.with_label_values(labels).add(by)
}

/// Removes the gauge with given label values with `remove_label_values`, which is an error where
/// there is none and changes nothing then.
#[verifier::external_body]
pub(crate) fn remove_gauge(family: &mut GaugeFamily, labels: &[&str])
    requires
        labels@.len() == gauge_labels(*old(family)),
    ensures
        gauge_home(*final(family)) == gauge_home(*old(family)),
        gauge_description(*final(family)) == gauge_description(*old(family)),
        gauge_samples(*final(family)) == gauge_samples(*old(family)).remove(
            sample_key(label_texts(labels@)),
        ),
{
    let _ = family.vec.remove_label_values(labels);
}

/// The line in which prometheus shows a sample of the family with a given name and given labels:
/// its label values, and its number.
pub uninterp spec fn sample_line(
    name: Seq<char>,
    labels: Seq<Seq<char>>,
    values: Seq<Seq<char>>,
    number: int,
) -> Seq<char>;

/// The text in which prometheus exports families of counters and of gauges, each given by its
/// description and its samples.
pub uninterp spec fn exported_text(
    counters: Seq<((Seq<char>, Seq<char>, Seq<Seq<char>>), Map<u64, (Seq<Seq<char>>, u64)>)>,
    gauges: Seq<((Seq<char>, Seq<char>, Seq<Seq<char>>), Map<u64, (Seq<Seq<char>>, i64)>)>,
) -> Seq<char>;

/// Whether a text is one that exporting a registry with a given mark can give, whoever enters
/// families into it. There are many, as the samples of the families go on changing.
pub uninterp spec fn can_export(mark: int, text: Seq<char>) -> bool;

/// The descriptions and the samples of families of counters.
pub open spec fn counter_contents(families: Seq<&CounterFamily>) -> Seq<
    ((Seq<char>, Seq<char>, Seq<Seq<char>>), Map<u64, (Seq<Seq<char>>, u64)>),
> {
    Seq::new(
        families.len(),
        |i: int| (counter_description(*families[i]), counter_samples(*families[i])),
    )
}

/// The descriptions and the samples of families of gauges.
pub open spec fn gauge_contents(families: Seq<&GaugeFamily>) -> Seq<
    ((Seq<char>, Seq<char>, Seq<Seq<char>>), Map<u64, (Seq<Seq<char>>, i64)>),
> {
    Seq::new(
        families.len(),
        |i: int| (gauge_description(*families[i]), gauge_samples(*families[i])),
    )
}

/// Whether a registry, on which there is no other handle, holds exactly the given families.
pub open spec fn holds_exactly(
    registry: prometheus::Registry,
    counters: Seq<&CounterFamily>,
    gauges: Seq<&GaugeFamily>,
) -> bool {
    &&& registry_families(registry) == Some(
        Seq::new(counters.len(), |i: int| counter_description(*counters[i])) + Seq::new(
            gauges.len(),
            |i: int| gauge_description(*gauges[i]),
        ),
    )
    &&& forall|i: int|
        0 <= i < counters.len() ==> counter_home(*#[trigger] counters[i]) == registry_mark(registry)
    &&& forall|i: int|
        0 <= i < gauges.len() ==> gauge_home(*#[trigger] gauges[i]) == registry_mark(registry)
}

/// Whether a text has a line.
pub open spec fn has_line(text: Seq<char>, line: Seq<char>) -> bool {
    exists|start: int| #[trigger]
        stands_at(text, line, start) && (start == 0 || text[start - 1] == '\n') && start
            + line.len() < text.len() && text[start + line.len()] == '\n'
}

/// Whether a text could be a line that shows a sample: other lines are headers.
pub open spec fn is_no_header(line: Seq<char>) -> bool {
    line.len() > 0 && line[0] != '#' && !line.contains('\n')
}

/// Whether a line shows a sample of one of the families.
pub open spec fn shows_a_sample(
    line: Seq<char>,
    counters: Seq<((Seq<char>, Seq<char>, Seq<Seq<char>>), Map<u64, (Seq<Seq<char>>, u64)>)>,
    gauges: Seq<((Seq<char>, Seq<char>, Seq<Seq<char>>), Map<u64, (Seq<Seq<char>>, i64)>)>,
) -> bool {
    ||| exists|i: int, key: u64|
        0 <= i < counters.len() && #[trigger] counters[i].1.contains_key(key) && line
            == counter_line(counters[i].0, counters[i].1[key])
    ||| exists|i: int, key: u64|
        0 <= i < gauges.len() && #[trigger] gauges[i].1.contains_key(key) && line == gauge_line(
            gauges[i].0,
            gauges[i].1[key],
        )
}

/// The name in a description.
pub open spec fn name_of(description: (Seq<char>, Seq<char>, Seq<Seq<char>>)) -> Seq<char> {
    description.0
}

/// The labels in a description.
pub open spec fn labels_of(description: (Seq<char>, Seq<char>, Seq<Seq<char>>)) -> Seq<Seq<char>> {
    description.2
}

/// The line that shows a counter.
pub open spec fn counter_line(
    description: (Seq<char>, Seq<char>, Seq<Seq<char>>),
    sample: (Seq<Seq<char>>, u64),
) -> Seq<char> {
    sample_line(description.0, description.2, sample.0, sample.1 as int)
}

/// The line that shows a gauge.
pub open spec fn gauge_line(
    description: (Seq<char>, Seq<char>, Seq<Seq<char>>),
    sample: (Seq<Seq<char>>, i64),
) -> Seq<char> {
    sample_line(description.0, description.2, sample.0, sample.1 as int)
}

/// Whether a text is the export of the given families: every sample has its line, and every line
/// but the headers shows a sample.
pub open spec fn is_export(
    text: Seq<char>,
    counters: Seq<((Seq<char>, Seq<char>, Seq<Seq<char>>), Map<u64, (Seq<Seq<char>>, u64)>)>,
    gauges: Seq<((Seq<char>, Seq<char>, Seq<Seq<char>>), Map<u64, (Seq<Seq<char>>, i64)>)>,
) -> bool {
    &&& text == exported_text(counters, gauges)
    &&& forall|i: int, key: u64|
        0 <= i < counters.len() && #[trigger] counters[i].1.contains_key(key) ==> has_line(
            text,
            counter_line(counters[i].0, counters[i].1[key]),
        )
    &&& forall|i: int, key: u64|
        0 <= i < gauges.len() && #[trigger] gauges[i].1.contains_key(key) ==> has_line(
            text,
            gauge_line(gauges[i].0, gauges[i].1[key]),
        )
    &&& forall|line: Seq<char>| #[trigger]
        has_line(text, line) && is_no_header(line) ==> shows_a_sample(line, counters, gauges)
}

/// Exports all families of a registry as text, with `prometheus::Registry::gather` and
/// `prometheus::TextEncoder`. Where the registry holds exactly the given families, the text depends
/// on what they hold alone: `gather` collects them, leaves out those without samples and sorts the
/// rest, and the encoder, which refuses only families without a name or without samples, writes
/// header lines for each and a line for each sample, with line breaks in texts escaped. Of a
/// registry that others can enter families into, it is only said whose text it is.
#[verifier::external_body]
fn gather_and_encode(
    registry: &prometheus::Registry,
    counters: &Vec<&CounterFamily>,
    gauges: &Vec<&GaugeFamily>,
) -> (text: Result<String, MetricsError>)
    ensures
        text is Ok ==> can_export(registry_mark(*registry), text->Ok_0@),
        holds_exactly(*registry, counters@, gauges@) ==> text is Ok,
        holds_exactly(*registry, counters@, gauges@) ==> text->Ok_0@ == exported_text(
            counter_contents(counters@),
            gauge_contents(gauges@),
        ),
        holds_exactly(*registry, counters@, gauges@) ==> forall|i: int, key: u64|
            0 <= i < counters@.len() && #[trigger] counter_samples(*counters@[i]).contains_key(key)
                ==> has_line(
                text->Ok_0@,
                sample_line(
                    counter_description(*counters@[i]).0,
                    counter_description(*counters@[i]).2,
                    counter_samples(*counters@[i])[key].0,
                    counter_samples(*counters@[i])[key].1 as int,
                ),
            ),
        holds_exactly(*registry, counters@, gauges@) ==> forall|i: int, key: u64|
            0 <= i < gauges@.len() && #[trigger] gauge_samples(*gauges@[i]).contains_key(key)
                ==> has_line(
                text->Ok_0@,
                sample_line(
                    gauge_description(*gauges@[i]).0,
                    gauge_description(*gauges@[i]).2,
                    gauge_samples(*gauges@[i])[key].0,
                    gauge_samples(*gauges@[i])[key].1 as int,
                ),
            ),
        holds_exactly(*registry, counters@, gauges@) ==> forall|line: Seq<char>| #[trigger]
            has_line(text->Ok_0@, line) && is_no_header(line) ==> shows_a_sample(
                line,
                counter_contents(counters@),
                gauge_contents(gauges@),
            ),
{
    let _ = (counters, gauges);
    let mut buffer = Vec::new();
    prometheus::TextEncoder::new()
        .encode(&registry.gather(), &mut buffer)
        .map_err(|_| MetricsError {})?;
    String::from_utf8(buffer).map_err(|_| MetricsError {})
}

/// The families of a registry as text.
pub(crate) fn export_text(
    registry: &prometheus::Registry,
    counters: &Vec<&CounterFamily>,
    gauges: &Vec<&GaugeFamily>,
) -> (text: Result<String, MetricsError>)
    ensures
        text is Ok ==> can_export(registry_mark(*registry), text->Ok_0@),
        holds_exactly(*registry, counters@, gauges@) ==> text is Ok && is_export(
            text->Ok_0@,
            counter_contents(counters@),
            gauge_contents(gauges@),
        ),
{
    let text: Result<String, MetricsError> = gather_and_encode(registry, counters, gauges);
    proof {
        if holds_exactly(*registry, counters@, gauges@) {
            let counted = counter_contents(counters@);
            let shown = gauge_contents(gauges@);
            assert forall|i: int, key: u64|
                0 <= i < counted.len() && #[trigger] counted[i].1.contains_key(
                    key,
                ) implies has_line(
                text->Ok_0@,
                counter_line(counted[i].0, counted[i].1[key]),
            ) by {
                assert(counter_samples(*counters@[i]).contains_key(key));
            }
            assert forall|i: int, key: u64|
                0 <= i < shown.len() && #[trigger] shown[i].1.contains_key(key) implies has_line(
                text->Ok_0@,
                gauge_line(shown[i].0, shown[i].1[key]),
            ) by {
                assert(gauge_samples(*gauges@[i]).contains_key(key));
            }
        }
    }
    text
}

/// Another handle on a registry, from `prometheus::Registry::clone`, which leads to the same
/// registry. Families can be entered and taken out through any of its handles, so of none of them
/// is it known any more what it holds.
#[verifier::external_body]
pub(crate) fn share_registry(registry: &mut prometheus::Registry) -> (shared: prometheus::Registry)
    ensures
        registry_mark(shared) == registry_mark(*old(registry)),
        registry_mark(*final(registry)) == registry_mark(*old(registry)),
        registry_families(shared) is None,
        registry_families(*final(registry)) is None,
{
    registry.clone()
}

/// What was counted is shown: the export has a line with the count, under the label values that
/// the counter was made with, which are those given unless others with the same key came first.
pub proof fn counts_are_shown(
    text: Seq<char>,
    counters: Seq<((Seq<char>, Seq<char>, Seq<Seq<char>>), Map<u64, (Seq<Seq<char>>, u64)>)>,
    gauges: Seq<((Seq<char>, Seq<char>, Seq<Seq<char>>), Map<u64, (Seq<Seq<char>>, i64)>)>,
    at: int,
    before: Map<u64, (Seq<Seq<char>>, u64)>,
    labels: Seq<Seq<char>>,
    by: u64,
)
    requires
        is_export(text, counters, gauges),
        0 <= at < counters.len(),
        counters[at].1 == counted_up(before, labels, by),
    ensures
        has_line(
            text,
            sample_line(
                name_of(counters[at].0),
                labels_of(counters[at].0),
                counter_labelled(before, labels),
                counter_sum(counted(before, sample_key(labels)), by) as int,
            ),
        ),
{
    assert(counters[at].1.contains_key(sample_key(labels)));
}

/// Moving a gauge up undoes moving it down.
pub proof fn moving_up_undoes_moving_down(
    samples: Map<u64, (Seq<Seq<char>>, i64)>,
    labels: Seq<Seq<char>>,
)
    ensures
        ({
            let key = sample_key(labels);
            let after = gauge_moved(gauge_moved(samples, labels, -1i64), labels, 1);
            &&& gauged(after, key) == gauged(samples, key)
            &&& forall|other: u64| other != key ==> gauged(after, other) == gauged(samples, other)
        }),
{
}

} // verus!
