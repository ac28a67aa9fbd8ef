//! One registration stream for each router that is published.

use crate::text::{same_text, texts};
use vstd::prelude::*;

verus! {

/// The endpoints of the routers that a registration stream runs for.
pub struct RegistrationSupervisor {
    routers: Vec<String>,
}

impl View for RegistrationSupervisor {
    type V = Set<Seq<char>>;

    closed spec fn view(&self) -> Set<Seq<char>> {
        texts(self.routers@).to_set()
    }
}

/// What to do about the streams: end those of the routers that are gone, then start those of the
/// routers that are new.
pub struct Reconciliation {
    pub retired: Vec<String>,
    pub started: Vec<String>,
}

/// What a supervisor waits for.
#[derive(Clone, Copy, Debug, PartialEq, Eq, Structural)]
pub enum SupervisorEvent {
    /// The routers that are published changed.
    TopologyChanged,
    /// Nothing will be published any more.
    TopologyClosed,
    /// The supervisor is told to stop.
    Stopped,
}

/// What a supervisor does then.
#[derive(Clone, Copy, Debug, PartialEq, Eq, Structural)]
pub enum SupervisorStep {
    /// It follows the routers that are published.
    Reconcile,
    /// It ends all streams.
    ShutDown,
}

/// What a supervisor does at an event: it follows the topology until it is told to stop or nothing
/// will be published any more.
pub fn supervisor_step(event: SupervisorEvent) -> (step: SupervisorStep)
    ensures
        step == match event {
            SupervisorEvent::TopologyChanged => SupervisorStep::Reconcile,
            SupervisorEvent::TopologyClosed => SupervisorStep::ShutDown,
            SupervisorEvent::Stopped => SupervisorStep::ShutDown,
        },
{
    match event {
        SupervisorEvent::TopologyChanged => SupervisorStep::Reconcile,
        SupervisorEvent::TopologyClosed => SupervisorStep::ShutDown,
        SupervisorEvent::Stopped => SupervisorStep::ShutDown,
    }
}

/// Whether a list of texts holds a text.
fn holds(list: &Vec<String>, text: &String) -> (held: bool)
    ensures
        held == texts(list@).contains(text@),
{
    let mut at: usize = 0;
    while at < list.len()
        invariant
            at <= list@.len(),
            forall|i: int| 0 <= i < at ==> #[trigger] texts(list@)[i] != text@,
        decreases list@.len() - at,
    {
        if same_text(list[at].as_str(), text.as_str()) {
            assert(texts(list@)[at as int] == text@);
            return true;
        }
        at = at + 1;
    }
    false
}

/// The routers that are published: none as long as nothing was published.
pub open spec fn desired_routers(published: Option<Vec<String>>) -> Seq<Seq<char>> {
    match published {
        Some(routers) => texts(routers@),
        None => Seq::empty(),
    }
}

/// What reconciling comes to: exactly the published routers have a stream, those that are published no
/// more are retired, and those that are new are started.
pub open spec fn reconciles(
    before: Set<Seq<char>>,
    published: Option<Vec<String>>,
    changes: Reconciliation,
    after: Set<Seq<char>>,
) -> bool {
    let desired = desired_routers(published).to_set();
    &&& after == desired
    &&& texts(changes.retired@).to_set() == before.difference(desired)
    &&& texts(changes.started@).to_set() == desired.difference(before)
}

impl RegistrationSupervisor {
    /// No router is there twice.
    pub closed spec fn wf(&self) -> bool {
        texts(self.routers@).no_duplicates()
    }

    /// A supervisor without streams.
    pub fn new() -> (supervisor: Self)
        ensures
            supervisor.wf(),
            supervisor@ == Set::<Seq<char>>::empty(),
    {
        let supervisor = RegistrationSupervisor { routers: Vec::new() };
        assert(supervisor@ =~= Set::<Seq<char>>::empty());
        supervisor
    }

    /// Follows the routers that are published: afterwards a stream runs for each of them and for no
    /// other, the streams of routers that are still published having been left alone.
    pub fn reconcile(&mut self, published: &Option<Vec<String>>) -> (changes: Reconciliation)
        requires
            old(self).wf(),
        ensures
            reconciles(old(self)@, *published, changes, final(self)@),
            final(self).wf(),
            texts(changes.retired@).no_duplicates(),
            texts(changes.started@).no_duplicates(),
    {
        let none: Vec<String> = Vec::new();
        let desired: &Vec<String> = match published {
            Some(routers) => routers,
            None => &none,
        };
        let ghost wanted = desired_routers(*published);
        assert(texts(desired@) =~= wanted);
        let ghost before = texts(self.routers@);
        let mut kept: Vec<String> = Vec::new();
        let mut retired: Vec<String> = Vec::new();
        let mut at: usize = 0;
        while at < self.routers.len()
            invariant
                at <= self.routers@.len(),
                before == texts(self.routers@),
                before.no_duplicates(),
                texts(kept@).no_duplicates(),
                texts(retired@).no_duplicates(),
                forall|text: Seq<char>| #[trigger]
                    texts(kept@).contains(text) <==> before.take(at as int).contains(text)
                        && texts(desired@).contains(text),
                forall|text: Seq<char>| #[trigger]
                    texts(retired@).contains(text) <==> before.take(at as int).contains(text)
                        && !texts(desired@).contains(text),
            decreases self.routers@.len() - at,
        {
            proof {
                lemma_next_is_new(before, at as int);
            }
            if holds(desired, &self.routers[at]) {
                let ghost list = kept@;
                kept.push(self.routers[at].clone());
                proof {
                    assert(kept@.drop_last() =~= list);
                    lemma_pushed(list, kept@);
                }
            } else {
                let ghost list = retired@;
                retired.push(self.routers[at].clone());
                proof {
                    assert(retired@.drop_last() =~= list);
                    lemma_pushed(list, retired@);
                }
            }
            at = at + 1;
        }
        assert(before.take(at as int) =~= before);
        let mut started: Vec<String> = Vec::new();
        let mut next: usize = 0;
        while next < desired.len()
            invariant
                next <= desired@.len(),
                texts(kept@).no_duplicates(),
                texts(started@).no_duplicates(),
                forall|text: Seq<char>| #[trigger]
                    texts(kept@).contains(text) <==> (before.contains(text) && texts(
                        desired@,
                    ).contains(text)) || texts(desired@).take(next as int).contains(text),
                forall|text: Seq<char>| #[trigger]
                    texts(started@).contains(text) <==> texts(desired@).take(
                        next as int,
                    ).contains(text) && !before.contains(text),
            decreases desired@.len() - next,
        {
            let ghost wanted_texts = texts(desired@);
            proof {
                lemma_taken(wanted_texts, next as int);
            }
            let router: &String = &desired[next];
            assert(wanted_texts[next as int] == router@);
            assert(wanted_texts.contains(router@));
            if !holds(&kept, router) {
                let ghost kept_list = kept@;
                let ghost started_list = started@;
                kept.push(router.clone());
                started.push(router.clone());
                proof {
                    assert(kept@.drop_last() =~= kept_list);
                    lemma_pushed(kept_list, kept@);
                    assert(started@.drop_last() =~= started_list);
                    lemma_pushed(started_list, started@);
                }
            }
            next = next + 1;
        }
        assert(texts(desired@).take(next as int) =~= texts(desired@));
        self.routers = kept;
        assert(self@ =~= wanted.to_set());
        assert(texts(retired@).to_set() =~= before.to_set().difference(wanted.to_set()));
        assert(texts(started@).to_set() =~= wanted.to_set().difference(before.to_set()));
        Reconciliation { retired, started }
    }

    /// Ends all streams.
    pub fn shut_down(&mut self) -> (ended: Vec<String>)
        requires
            old(self).wf(),
        ensures
            texts(ended@).to_set() == old(self)@,
            texts(ended@).no_duplicates(),
            final(self).wf(),
            final(self)@ == Set::<Seq<char>>::empty(),
    {
        let mut ended: Vec<String> = Vec::new();
        std::mem::swap(&mut ended, &mut self.routers);
        assert(self@ =~= Set::<Seq<char>>::empty());
        ended
    }
}

proof fn lemma_taken(list: Seq<Seq<char>>, at: int)
    requires
        0 <= at < list.len(),
    ensures
        forall|text: Seq<char>| #[trigger]
            list.take(at + 1).contains(text) <==> list.take(at).contains(text) || text == list[at],
{
    assert(list.take(at + 1) =~= list.take(at).push(list[at]));
    assert forall|text: Seq<char>| #[trigger]
        list.take(at + 1).contains(text) <==> list.take(at).contains(text) || text == list[at] by {
        if list.take(at).contains(text) {
            let i = choose|i: int| 0 <= i < at && list.take(at)[i] == text;
            assert(list.take(at + 1)[i] == text);
        }
        if text == list[at] {
            assert(list.take(at + 1)[at] == text);
        }
        if list.take(at + 1).contains(text) && text != list[at] {
            let i = choose|i: int| 0 <= i < at + 1 && #[trigger] list.take(at + 1)[i] == text;
            assert(list.take(at)[i] == text);
        }
    }
}

proof fn lemma_next_is_new(list: Seq<Seq<char>>, at: int)
    requires
        0 <= at < list.len(),
        list.no_duplicates(),
    ensures
        !list.take(at).contains(list[at]),
        forall|text: Seq<char>| #[trigger]
            list.take(at + 1).contains(text) <==> list.take(at).contains(text) || text == list[at],
{
    lemma_taken(list, at);
}

proof fn lemma_pushed(before: Seq<String>, after: Seq<String>)
    requires
        after.len() == before.len() + 1,
        after.drop_last() == before,
        texts(before).no_duplicates(),
        !texts(before).contains(texts(after).last()),
    ensures
        texts(after).no_duplicates(),
        forall|text: Seq<char>| #[trigger]
            texts(after).contains(text) <==> texts(before).contains(text) || text
                == texts(after).last(),
{
    let list = texts(after);
    assert(list.drop_last() =~= texts(before)) by {
        assert(forall|i: int| 0 <= i < before.len() ==> after[i] == after.drop_last()[i]);
    }
    lemma_taken(list, before.len() as int);
    assert(list.take(before.len() as int) =~= texts(before));
    assert(list.take(before.len() as int + 1) =~= list);
    assert forall|i: int, j: int|
        0 <= i < list.len() && 0 <= j < list.len() && i != j implies list[i] != list[j] by {
        if i < before.len() {
            assert(list[i] == texts(before)[i]);
            assert(texts(before).contains(list[i]));
        }
        if j < before.len() {
            assert(list[j] == texts(before)[j]);
            assert(texts(before).contains(list[j]));
        }
    }
}

/// A router has a stream after reconciling if and only if it is published. One that had a stream
/// before and is published still is neither retired nor started; without a publication every stream
/// ends; and a stream is not ended and started at once.
pub proof fn published_routers_have_one_stream(
    before: Set<Seq<char>>,
    published: Option<Vec<String>>,
    changes: Reconciliation,
    after: Set<Seq<char>>,
    router: String,
)
    requires
        reconciles(before, published, changes, after),
    ensures
        ({
            let wanted = published is Some && exists|i: int|
                0 <= i < published->0@.len() && (#[trigger] published->0@[i])@ == router@;
            let retired = texts(changes.retired@).contains(router@);
            let started = texts(changes.started@).contains(router@);
            &&& after.contains(router@) <==> wanted
            &&& retired <==> before.contains(router@) && !wanted
            &&& started <==> !before.contains(router@) && wanted
            &&& !(retired && started)
        }),
{
    let desired = desired_routers(published);
    assert(texts(changes.retired@).contains(router@) <==> texts(changes.retired@).to_set().contains(
        router@,
    ));
    assert(texts(changes.started@).contains(router@) <==> texts(changes.started@).to_set().contains(
        router@,
    ));
    assert(desired.to_set().contains(router@) <==> desired.contains(router@));
    if published is Some {
        let routers = published->0@;
        if desired.contains(router@) {
            let i = choose|i: int| 0 <= i < desired.len() && desired[i] == router@;
            assert(routers[i]@ == router@);
        }
        assert forall|i: int| 0 <= i < routers.len() && (#[trigger] routers[i])@
            == router@ implies desired.contains(router@) by {
            assert(desired[i] == router@);
        }
    }
}

/// A supervisor reconciles whenever the topology changes, and shuts down when it is stopped or will
/// hear of no more changes.
pub proof fn supervisors_follow_the_topology(event: SupervisorEvent, step: SupervisorStep)
    requires
        call_ensures(supervisor_step, (event,), step),
    ensures
        step is Reconcile <==> event is TopologyChanged,
        step is ShutDown <==> event is TopologyClosed || event is Stopped,
{
}

} // verus!
