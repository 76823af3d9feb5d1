//! The one-slot callback registry and the posting decision.

use vstd::prelude::*;

use crate::message::{DartCObject, DartPort};

verus! {

/// Handle standing for a native callback the embedder registered: an
/// opaque number (in practice the callback's address) that the embedder
/// maps back to the function it stands for.
pub type CallbackHandle = u64;

/// What a post operation must do, decided from the registration state:
/// either report failure without invoking anything, or hand the message
/// to exactly the registered callback with exactly the port supplied.
#[derive(Clone, Copy, Debug, PartialEq, Eq, Structural)]
pub enum PostAction {
    Reject,
    Deliver { callback: CallbackHandle, port: DartPort },
}

/// The registration state an initialization call leaves behind: the new
/// callback, whatever was registered before.
pub open spec fn init_transition(
    state: Option<CallbackHandle>,
    callback: CallbackHandle,
) -> Option<CallbackHandle> {
    Some(callback)
}

/// The action a post operation takes in a given registration state:
/// rejection while nothing is registered, delivery to the registered
/// callback afterwards.
pub open spec fn post_action(state: Option<CallbackHandle>, port: DartPort) -> PostAction {
    match state {
        None => PostAction::Reject,
        Some(callback) => PostAction::Deliver { callback, port },
    }
}

/// The single-slot registry of the posting callback. It starts empty;
/// an initialization call fills it; it is never cleared.
pub struct DartBridge {
    callback: Option<CallbackHandle>,
}

impl DartBridge {
    /// The registration held: the callback handle, or nothing before the
    /// first initialization.
    pub closed spec fn registered(self) -> Option<CallbackHandle> {
        self.callback
    }

    /// A registry in its starting state: nothing registered.
    pub fn new() -> (bridge: DartBridge)
        ensures
            bridge.registered() == None::<CallbackHandle>,
    {
        DartBridge { callback: None }
    }

    /// Record the callback through which every later post is delivered,
    /// replacing any earlier registration silently, and report success.
    pub fn init_dart_api(&mut self, callback: CallbackHandle) -> (status: i32)
        ensures
            final(self).registered() == init_transition(old(self).registered(), callback),
            status == 1,
    {
        self.callback = Some(callback);
        1
    }

    /// Decide what posting a message to the given port must do: reject
    /// while nothing is registered, otherwise deliver through the
    /// registered callback. The embedder performs the delivery and feeds
    /// what the callback returned to `post_result`.
    pub fn post_message_to_dart(&self, port: DartPort) -> (action: PostAction)
        ensures
            action == post_action(self.registered(), port),
    {
        match self.callback {
            Some(callback) => PostAction::Deliver { callback, port },
            None => PostAction::Reject,
        }
    }

    /// Build a 64-bit integer message and decide how to post it.
    pub fn post_int_to_dart(&self, port: DartPort, value: i64) -> (r: (DartCObject, PostAction))
        ensures
            r.0 == DartCObject::Int64(value),
            r.1 == post_action(self.registered(), port),
    {
        (DartCObject::Int64(value), self.post_message_to_dart(port))
    }

    /// Build a boolean message and decide how to post it.
    pub fn post_bool_to_dart(&self, port: DartPort, value: bool) -> (r: (DartCObject, PostAction))
        ensures
            r.0 == DartCObject::Bool(value),
            r.1 == post_action(self.registered(), port),
    {
        (DartCObject::Bool(value), self.post_message_to_dart(port))
    }

    /// Build an absent-value message and decide how to post it.
    pub fn post_null_to_dart(&self, port: DartPort) -> (r: (DartCObject, PostAction))
        ensures
            r.0 == DartCObject::Null,
            r.1 == post_action(self.registered(), port),
    {
        (DartCObject::Null, self.post_message_to_dart(port))
    }
}

/// The boolean a post operation reports: false for a rejected post, and
/// for a delivered one exactly what the callback returned, unchanged.
pub fn post_result(action: &PostAction, delivered: bool) -> (r: bool)
    ensures
        *action == PostAction::Reject ==> r == false,
        (action matches PostAction::Deliver { .. }) ==> r == delivered,
{
    match action {
        PostAction::Reject => false,
        PostAction::Deliver { .. } => delivered,
    }
}

/// Posting before any initialization is rejected: no callback is invoked,
/// and the reported result is false whatever the port.
pub proof fn lemma_post_before_init(port: DartPort)
    ensures
        post_action(None::<CallbackHandle>, port) == PostAction::Reject,
{
}

/// After an initialization, a post delivers to exactly the callback just
/// registered, with exactly the port supplied, whatever state the
/// registry was in before.
pub proof fn lemma_post_after_init(
    state: Option<CallbackHandle>,
    callback: CallbackHandle,
    port: DartPort,
)
    ensures
        post_action(init_transition(state, callback), port) == (PostAction::Deliver {
            callback,
            port,
        }),
{
}

/// Re-initialization replaces the earlier registration: after a second
/// initialization, a post delivers to the newest callback only.
pub proof fn lemma_reinit_uses_newest(
    state: Option<CallbackHandle>,
    first: CallbackHandle,
    second: CallbackHandle,
    port: DartPort,
)
    ensures
        post_action(init_transition(init_transition(state, first), second), port)
            == (PostAction::Deliver { callback: second, port }),
{
}

} // verus!
