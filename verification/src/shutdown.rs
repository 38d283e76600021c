//! The result of shutting the gateway down.

use crate::socket::{in_context, with_context};
use vstd::prelude::*;

verus! {

pub const SHUTDOWN_DEADLINE_SECONDS: u64 = 8;

/// What made the gateway stop.
#[derive(Clone, Copy, Debug, PartialEq, Eq, Structural)]
pub enum Stop {
    Signal,
    Daemon,
    Server,
}

impl Stop {
    pub open spec fn spec_reason(self) -> Seq<char> {
        match self {
            Stop::Signal => "shutdown signal"@,
            Stop::Daemon => "daemon supervisor stopped"@,
            Stop::Server => "HTTP server stopped"@,
        }
    }

    pub fn reason(self) -> (r: &'static str)
        ensures
            r@ == self.spec_reason(),
    {
        match self {
            Stop::Signal => "shutdown signal",
            Stop::Daemon => "daemon supervisor stopped",
            Stop::Server => "HTTP server stopped",
        }
    }
}

#[derive(Clone, Copy, Debug, PartialEq, Eq, Structural)]
pub enum Component {
    Trigger,
    Sockets,
    Daemon,
    Server,
}

impl Component {
    pub open spec fn spec_name(self) -> Seq<char> {
        match self {
            Component::Trigger => "shutdown trigger"@,
            Component::Sockets => "WebSocket connections"@,
            Component::Daemon => "daemon supervisor"@,
            Component::Server => "HTTP server"@,
        }
    }

    pub fn name(self) -> (r: &'static str)
        ensures
            r@ == self.spec_name(),
    {
        match self {
            Component::Trigger => "shutdown trigger",
            Component::Sockets => "WebSocket connections",
            Component::Daemon => "daemon supervisor",
            Component::Server => "HTTP server",
        }
    }
}

/// What went wrong with each component while it was shut down, if anything did.
#[derive(Debug)]
pub struct ShutdownErrors {
    pub trigger: Option<String>,
    pub sockets: Option<String>,
    pub daemon: Option<String>,
    pub server: Option<String>,
}

/// The order in which failures count: what made the gateway stop comes first. Only a
/// signal can fail as a trigger.
pub open spec fn blame_order(stop: Stop) -> Seq<Component> {
    match stop {
        Stop::Signal => seq![
            Component::Trigger,
            Component::Sockets,
            Component::Daemon,
            Component::Server,
        ],
        Stop::Daemon => seq![Component::Daemon, Component::Sockets, Component::Server],
        Stop::Server => seq![Component::Server, Component::Sockets, Component::Daemon],
    }
}

pub open spec fn text_view(text: Option<String>) -> Option<Seq<char>> {
    match text {
        Some(text) => Some(text@),
        None => None,
    }
}

impl ShutdownErrors {
    pub open spec fn of(self, component: Component) -> Option<Seq<char>> {
        match component {
            Component::Trigger => text_view(self.trigger),
            Component::Sockets => text_view(self.sockets),
            Component::Daemon => text_view(self.daemon),
            Component::Server => text_view(self.server),
        }
    }

    fn error_of(&self, component: Component) -> (r: Option<&String>)
        ensures
            match r {
                Some(text) => self.of(component) == Some(text@),
                None => self.of(component) is None,
            },
    {
        match component {
            Component::Trigger => self.trigger.as_ref(),
            Component::Sockets => self.sockets.as_ref(),
            Component::Daemon => self.daemon.as_ref(),
            Component::Server => self.server.as_ref(),
        }
    }
}

/// The first component from `from` on, in order of blame, that failed.
pub open spec fn first_failure(
    errors: ShutdownErrors,
    order: Seq<Component>,
    from: int,
) -> Option<Component>
    decreases order.len() - from,
{
    if from < 0 || from >= order.len() {
        None
    } else if errors.of(order[from]) is Some {
        Some(order[from])
    } else {
        first_failure(errors, order, from + 1)
    }
}

fn order_of(stop: Stop) -> (r: Vec<Component>)
    ensures
        r@ == blame_order(stop),
{
    let mut order: Vec<Component> = Vec::new();
    match stop {
        Stop::Signal => {
            order.push(Component::Trigger);
            order.push(Component::Sockets);
            order.push(Component::Daemon);
            order.push(Component::Server);
        },
        Stop::Daemon => {
            order.push(Component::Daemon);
            order.push(Component::Sockets);
            order.push(Component::Server);
        },
        Stop::Server => {
            order.push(Component::Server);
            order.push(Component::Sockets);
            order.push(Component::Daemon);
        },
    }
    order
}

/// The components that failed, in order of blame, and the error that the gateway exits
/// with: the first of them.
pub fn finish_shutdown(stop: Stop, errors: &ShutdownErrors) -> (r: (Vec<Component>, Option<String>))
    ensures
        r.0@ == blame_order(stop).filter(|component: Component| errors.of(component) is Some),
        match first_failure(*errors, blame_order(stop), 0) {
            Some(component) => text_view(r.1) == Some(
                in_context(
                    component.spec_name() + " did not shut down cleanly"@,
                    errors.of(component)->0,
                ),
            ),
            None => r.1 is None,
        },
{
    let order = order_of(stop);
    let mut failed: Vec<Component> = Vec::new();
    let mut first: Option<String> = None;
    let ghost failing = |component: Component| errors.of(component) is Some;
    let mut at: usize = 0;
    assert(order@.take(0).filter(failing) =~= Seq::empty()) by {
        reveal(Seq::filter);
    }
    while at < order.len()
        invariant
            at <= order@.len(),
            order@ == blame_order(stop),
            failing == (|component: Component| errors.of(component) is Some),
            failed@ == order@.take(at as int).filter(failing),
            first is None ==> first_failure(*errors, order@, 0) == first_failure(
                *errors,
                order@,
                at as int,
            ),
            first matches Some(text) ==> {
                let component = first_failure(*errors, order@, 0);
                component is Some && text@ == in_context(
                    component->0.spec_name() + " did not shut down cleanly"@,
                    errors.of(component->0)->0,
                )
            },
        decreases order@.len() - at,
    {
        let component = order[at];
        proof {
            let upto = order@.take(at as int + 1);
            assert(upto.drop_last() =~= order@.take(at as int));
            assert(upto.last() == component);
            reveal(Seq::filter);
        }
        match errors.error_of(component) {
            Some(error) => {
                failed.push(component);
                if first.is_none() {
                    let mut context = String::from_str(component.name());
                    context.append(" did not shut down cleanly");
                    first = Some(with_context(context.as_str(), error.as_str()));
                }
            },
            None => {},
        }
        at = at + 1;
    }
    assert(order@.take(at as int) =~= order@);
    (failed, first)
}

/// The gateway exits cleanly exactly if every component whose failure counts shut down
/// cleanly.
pub proof fn law_clean_exit_means_no_failure(stop: Stop, errors: ShutdownErrors)
    ensures
        first_failure(errors, blame_order(stop), 0) is None <==> (forall|i: int|
            0 <= i < blame_order(stop).len() ==> errors.of(#[trigger] blame_order(stop)[i])
                is None),
{
    lemma_first_failure(errors, blame_order(stop), 0);
}

proof fn lemma_first_failure(errors: ShutdownErrors, order: Seq<Component>, from: int)
    requires
        0 <= from,
    ensures
        first_failure(errors, order, from) is None <==> (forall|i: int|
            from <= i < order.len() ==> errors.of(#[trigger] order[i]) is None),
    decreases order.len() - from,
{
    if from < order.len() {
        lemma_first_failure(errors, order, from + 1);
        if errors.of(order[from]) is None && first_failure(errors, order, from + 1) is None {
            assert forall|i: int| from <= i < order.len() implies errors.of(#[trigger] order[i])
                is None by {
                if i > from {
                }
            }
        }
    }
}

/// What made the gateway stop is blamed first: a signal that could not be waited for,
/// the daemon or the server. After it come the sockets, the daemon and the server.
pub proof fn law_the_cause_is_blamed_first(errors: ShutdownErrors)
    ensures
        errors.trigger is Some ==> first_failure(errors, blame_order(Stop::Signal), 0) == Some(
            Component::Trigger,
        ),
        errors.daemon is Some ==> first_failure(errors, blame_order(Stop::Daemon), 0) == Some(
            Component::Daemon,
        ),
        errors.server is Some ==> first_failure(errors, blame_order(Stop::Server), 0) == Some(
            Component::Server,
        ),
        errors.trigger is None && errors.sockets is Some ==> first_failure(
            errors,
            blame_order(Stop::Signal),
            0,
        ) == Some(Component::Sockets),
        errors.daemon is None && errors.sockets is Some ==> first_failure(
            errors,
            blame_order(Stop::Daemon),
            0,
        ) == Some(Component::Sockets),
        errors.server is None && errors.sockets is Some ==> first_failure(
            errors,
            blame_order(Stop::Server),
            0,
        ) == Some(Component::Sockets),
        errors.trigger is None && errors.sockets is None && errors.daemon is Some ==> first_failure(
            errors,
            blame_order(Stop::Signal),
            0,
        ) == Some(Component::Daemon),
        errors.sockets is None && errors.server is None && errors.daemon is Some ==> first_failure(
            errors,
            blame_order(Stop::Server),
            0,
        ) == Some(Component::Daemon),
        errors.sockets is None && errors.daemon is None && errors.server is Some ==> first_failure(
            errors,
            blame_order(Stop::Daemon),
            0,
        ) == Some(Component::Server),
        errors.trigger is None && errors.sockets is None && errors.daemon is None
            && errors.server is Some ==> first_failure(errors, blame_order(Stop::Signal), 0)
            == Some(Component::Server),
{
    reveal_with_fuel(first_failure, 5);
}

/// Each component's failure is its own.
pub proof fn law_failures_belong_to_their_components(errors: ShutdownErrors)
    ensures
        errors.trigger matches Some(text) ==> errors.of(Component::Trigger) == Some(text@),
        errors.sockets matches Some(text) ==> errors.of(Component::Sockets) == Some(text@),
        errors.daemon matches Some(text) ==> errors.of(Component::Daemon) == Some(text@),
        errors.server matches Some(text) ==> errors.of(Component::Server) == Some(text@),
        errors.trigger is None ==> errors.of(Component::Trigger) is None,
        errors.sockets is None ==> errors.of(Component::Sockets) is None,
        errors.daemon is None ==> errors.of(Component::Daemon) is None,
        errors.server is None ==> errors.of(Component::Server) is None,
{
}

} // verus!
