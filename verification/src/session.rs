//! The client session: a possibly-absent connection handle, the active
//! context name and the set of known contexts, together with the pure
//! projection of raw configuration entries into context descriptors.
//!
//! Establishing a connection is outside work; the session takes the result
//! of each attempt as a plain value and decides what the new state is.

use vstd::prelude::*;
use vstd::string::*;

verus! {

/// One selectable context: a named (cluster, user, default namespace)
/// triple read from configuration.
#[derive(Clone, Debug)]
pub struct ContextInfo {
    pub name: String,
    pub cluster: String,
    pub user: String,
    pub namespace: Option<String>,
}

/// Abstract value of a [`ContextInfo`].
pub ghost struct ContextInfoV {
    pub name: Seq<char>,
    pub cluster: Seq<char>,
    pub user: Seq<char>,
    pub namespace: Option<Seq<char>>,
}

impl DeepView for ContextInfo {
    type V = ContextInfoV;

    open spec fn deep_view(&self) -> ContextInfoV {
        ContextInfoV {
            name: self.name@,
            cluster: self.cluster@,
            user: self.user@,
            namespace: match self.namespace {
                Some(n) => Some(n@),
                None => None,
            },
        }
    }
}

/// One raw context entry as configuration lists it: the body may be
/// missing, and a missing body drops the entry from the known contexts.
#[derive(Clone, Debug)]
pub struct RawContextEntry {
    pub name: String,
    pub context: Option<RawContextBody>,
}

/// The body of a raw context entry.
#[derive(Clone, Debug)]
pub struct RawContextBody {
    pub cluster: String,
    pub user: Option<String>,
    pub namespace: Option<String>,
}

/// Abstract value of a [`RawContextEntry`].
pub ghost struct RawContextEntryV {
    pub name: Seq<char>,
    pub context: Option<RawContextBodyV>,
}

/// Abstract value of a [`RawContextBody`].
pub ghost struct RawContextBodyV {
    pub cluster: Seq<char>,
    pub user: Option<Seq<char>>,
    pub namespace: Option<Seq<char>>,
}

impl DeepView for RawContextBody {
    type V = RawContextBodyV;

    open spec fn deep_view(&self) -> RawContextBodyV {
        RawContextBodyV {
            cluster: self.cluster@,
            user: match self.user {
                Some(u) => Some(u@),
                None => None,
            },
            namespace: match self.namespace {
                Some(n) => Some(n@),
                None => None,
            },
        }
    }
}

impl DeepView for RawContextEntry {
    type V = RawContextEntryV;

    open spec fn deep_view(&self) -> RawContextEntryV {
        RawContextEntryV {
            name: self.name@,
            context: match self.context {
                Some(ref b) => Some(b.deep_view()),
                None => None,
            },
        }
    }
}

/// The context descriptor an entry with a body projects to: a missing
/// user reads as the empty string.
pub open spec fn spec_context_of(e: RawContextEntryV, b: RawContextBodyV) -> ContextInfoV {
    ContextInfoV {
        name: e.name,
        cluster: b.cluster,
        user: match b.user {
            Some(u) => u,
            None => Seq::empty(),
        },
        namespace: b.namespace,
    }
}

/// The context descriptors kept from a raw entry list: entries without a
/// body are dropped, the rest keep their order.
pub open spec fn spec_contexts(s: Seq<RawContextEntryV>) -> Seq<ContextInfoV>
    decreases s.len(),
{
    if s.len() == 0 {
        Seq::empty()
    } else {
        spec_contexts(s.drop_last()) + match s.last().context {
            Some(b) => seq![spec_context_of(s.last(), b)],
            None => Seq::empty(),
        }
    }
}

/// Projects raw configuration entries into the ordered list of known
/// contexts, dropping entries whose body is missing.
pub fn contexts_from_config(entries: &Vec<RawContextEntry>) -> (r: Vec<ContextInfo>)
    ensures
        r.deep_view() == spec_contexts(entries.deep_view()),
{
    let mut out: Vec<ContextInfo> = Vec::new();
    let mut i: usize = 0;
    while i < entries.len()
        invariant
            i <= entries@.len(),
            out.deep_view() == spec_contexts(entries.deep_view().take(i as int)),
        decreases entries@.len() - i,
    {
        let ghost pre = entries.deep_view().take(i as int);
        match &entries[i].context {
            Some(body) => {
                let user: String = match &body.user {
                    Some(u) => u.clone(),
                    None => String::new(),
                };
                out.push(
                    ContextInfo {
                        name: entries[i].name.clone(),
                        cluster: body.cluster.clone(),
                        user,
                        namespace: match &body.namespace {
                            Some(n) => Some(n.clone()),
                            None => None,
                        },
                    },
                );
            },
            None => {},
        }
        i = i + 1;
        proof {
            let post = entries.deep_view().take(i as int);
            assert(post.drop_last() =~= pre);
            assert(post.last() == entries.deep_view()[i - 1]);
            assert(out.deep_view() =~= spec_contexts(post));
        }
    }
    proof {
        assert(entries.deep_view().take(entries@.len() as int) =~= entries.deep_view());
    }
    out
}

/// The namespace names kept from a raw metadata list: unnamed items are
/// dropped, the rest keep their order.
pub open spec fn spec_namespace_names(s: Seq<Option<Seq<char>>>) -> Seq<Seq<char>>
    decreases s.len(),
{
    if s.len() == 0 {
        Seq::empty()
    } else {
        spec_namespace_names(s.drop_last()) + match s.last() {
            Some(n) => seq![n],
            None => Seq::empty(),
        }
    }
}

/// Keeps the present names from a listing of possibly-unnamed items.
pub fn namespace_names(items: Vec<Option<String>>) -> (r: Vec<String>)
    ensures
        r.deep_view() == spec_namespace_names(items.deep_view()),
{
    let mut out: Vec<String> = Vec::new();
    let mut i: usize = 0;
    while i < items.len()
        invariant
            i <= items@.len(),
            out.deep_view() == spec_namespace_names(items.deep_view().take(i as int)),
        decreases items@.len() - i,
    {
        let ghost pre = items.deep_view().take(i as int);
        match &items[i] {
            Some(n) => {
                out.push(n.clone());
            },
            None => {},
        }
        i = i + 1;
        proof {
            let post = items.deep_view().take(i as int);
            assert(post.drop_last() =~= pre);
            assert(post.last() == items.deep_view()[i - 1]);
            assert(out.deep_view() =~= spec_namespace_names(post));
        }
    }
    proof {
        assert(items.deep_view().take(items@.len() as int) =~= items.deep_view());
    }
    out
}

/// Why a session could not be brought up or re-scoped.
#[derive(Clone, Debug)]
pub enum ConnectError {
    /// Configuration was missing or malformed.
    ConfigUnavailable { detail: String },
    /// The requested context is not among the known contexts.
    UnknownContext { name: String },
    /// The control plane could not be reached.
    Unreachable { detail: String },
}

impl ConnectError {
    /// The user-visible text of this error.
    pub open spec fn spec_message(&self) -> Seq<char> {
        match self {
            ConnectError::ConfigUnavailable { detail } => "Failed to read kubeconfig: "@
                + detail@,
            ConnectError::UnknownContext { name } => "Unknown context: "@ + name@,
            ConnectError::Unreachable { detail } => "Failed to connect: "@ + detail@,
        }
    }

    /// Renders the user-visible text of this error.
    pub fn message(&self) -> (r: String)
        ensures
            r@ == self.spec_message(),
    {
        match self {
            ConnectError::ConfigUnavailable { detail } => {
                let mut s: String = String::from_str("Failed to read kubeconfig: ");
                s.append(detail.as_str());
                s
            },
            ConnectError::UnknownContext { name } => {
                let mut s: String = String::from_str("Unknown context: ");
                s.append(name.as_str());
                s
            },
            ConnectError::Unreachable { detail } => {
                let mut s: String = String::from_str("Failed to connect: ");
                s.append(detail.as_str());
                s
            },
        }
    }
}

/// The configuration read at bring-up: the configured current context and
/// the full list of known contexts.
#[derive(Clone, Debug)]
pub struct ConfigData {
    pub current_context: Option<String>,
    pub contexts: Vec<ContextInfo>,
}

/// The session: a possibly-absent connection handle, the active context
/// name, and the ordered list of known contexts.
pub struct Session {
    pub connection: Option<u64>,
    pub active_context: Option<String>,
    pub known_contexts: Vec<ContextInfo>,
}

/// What two sessions must share to be interchangeable: the same active
/// context, the same reachability, and the same known contexts. The
/// numeric handle itself may differ, as each bring-up makes a fresh one.
pub open spec fn session_equivalent(a: Session, b: Session) -> bool {
    &&& a.connection is Some <==> b.connection is Some
    &&& a.active_context == b.active_context
    &&& a.known_contexts.deep_view() == b.known_contexts.deep_view()
}

/// What a completed initialize attempt does to a session: a failure to
/// read configuration or to connect leaves it untouched; success records
/// the configured current context, the known contexts and the new handle.
pub open spec fn spec_initialized(
    pre: Session,
    config: Result<ConfigData, String>,
    conn: Result<u64, String>,
    post: Session,
    r: Result<(), ConnectError>,
) -> bool {
    &&& (config matches Err(d) ==> r == Result::<(), ConnectError>::Err(
        ConnectError::ConfigUnavailable { detail: d },
    ) && post == pre)
    &&& (config is Ok ==> (conn matches Err(d) ==> r == Result::<(), ConnectError>::Err(
        ConnectError::Unreachable { detail: d },
    ) && post == pre))
    &&& (config matches Ok(c) ==> (conn matches Ok(h) ==> {
        &&& r is Ok
        &&& post.connection == Some(h)
        &&& post.active_context == c.current_context
        &&& post.known_contexts == c.contexts
    }))
}

/// What a completed context switch does to a session: an unknown name or
/// a failed connection leaves it untouched; success replaces the handle
/// and the active context name, and keeps the known contexts.
pub open spec fn spec_switched(
    pre: Session,
    name: Seq<char>,
    conn: Result<u64, String>,
    post: Session,
    r: Result<(), ConnectError>,
) -> bool {
    &&& (!pre.spec_has_context(name) ==> (r matches Err(e) && e matches
        ConnectError::UnknownContext { name: n } && n@ == name) && post == pre)
    &&& (pre.spec_has_context(name) ==> (conn matches Err(d) ==> r == Result::<
        (),
        ConnectError,
    >::Err(ConnectError::Unreachable { detail: d }) && post == pre))
    &&& (pre.spec_has_context(name) ==> (conn matches Ok(h) ==> r is Ok && post.connection
        == Some(h) && (post.active_context matches Some(a) && a@ == name) && post.known_contexts
        == pre.known_contexts))
}

impl Session {
    /// A fresh session: no connection, no active context, no contexts.
    pub fn new() -> (r: Session)
        ensures
            r.connection is None,
            r.active_context is None,
            r.known_contexts@.len() == 0,
    {
        Session { connection: None, active_context: None, known_contexts: Vec::new() }
    }

    /// Whether a context with this name is known.
    pub open spec fn spec_has_context(self, name: Seq<char>) -> bool {
        exists|i: int|
            0 <= i < self.known_contexts@.len() && (#[trigger] self.known_contexts@[i]).name@
                == name
    }

    /// Looks the name up among the known contexts.
    pub fn has_context(&self, name: &String) -> (r: bool)
        ensures
            r == self.spec_has_context(name@),
    {
        let mut i: usize = 0;
        while i < self.known_contexts.len()
            invariant
                i <= self.known_contexts@.len(),
                forall|j: int|
                    0 <= j < i ==> (#[trigger] self.known_contexts@[j]).name@ != name@,
            decreases self.known_contexts@.len() - i,
        {
            if self.known_contexts[i].name == *name {
                return true;
            }
            i = i + 1;
        }
        false
    }

    /// Completes a bring-up attempt. `config` is the result of reading the
    /// ambient configuration, `conn` the result of establishing a
    /// connection for its current context; both come from outside. A
    /// failure leaves any previously established connection untouched.
    pub fn initialize(
        &mut self,
        config: Result<ConfigData, String>,
        conn: Result<u64, String>,
    ) -> (r: Result<(), ConnectError>)
        ensures
            spec_initialized(*old(self), config, conn, *final(self), r),
    {
        match config {
            Err(d) => Err(ConnectError::ConfigUnavailable { detail: d }),
            Ok(c) => match conn {
                Err(d) => Err(ConnectError::Unreachable { detail: d }),
                Ok(h) => {
                    self.connection = Some(h);
                    self.active_context = c.current_context;
                    self.known_contexts = c.contexts;
                    Ok(())
                },
            },
        }
    }

    /// Completes a context switch attempt towards `name`. `conn` is the
    /// result of establishing a connection scoped to that context. On any
    /// failure the previous connection stays active and usable.
    pub fn switch_context(&mut self, name: String, conn: Result<u64, String>) -> (r: Result<
        (),
        ConnectError,
    >)
        ensures
            spec_switched(*old(self), name@, conn, *final(self), r),
    {
        if !self.has_context(&name) {
            return Err(ConnectError::UnknownContext { name });
        }
        match conn {
            Err(d) => Err(ConnectError::Unreachable { detail: d }),
            Ok(h) => {
                self.connection = Some(h);
                self.active_context = Some(name);
                Ok(())
            },
        }
    }

    /// A non-blocking snapshot read of the connection handle.
    pub fn current_connection(&self) -> (r: Option<u64>)
        ensures
            r == self.connection,
    {
        self.connection
    }

    /// The name of the active context, if any.
    pub fn get_current_context(&self) -> (r: Option<String>)
        ensures
            r == self.active_context,
    {
        match &self.active_context {
            Some(n) => Some(n.clone()),
            None => None,
        }
    }

    /// The ordered list of known contexts.
    pub fn list_contexts(&self) -> (r: &Vec<ContextInfo>)
        ensures
            r == &self.known_contexts,
    {
        &self.known_contexts
    }
}

/// Bringing a session up twice from the same configuration yields
/// equivalent sessions: the same active context, the same reachability
/// and the same known contexts, whatever handles the two attempts got.
pub proof fn lemma_initialize_idempotent(
    cfg: ConfigData,
    a0: Session,
    a1: Session,
    b0: Session,
    b1: Session,
    h1: u64,
    h2: u64,
    r1: Result<(), ConnectError>,
    r2: Result<(), ConnectError>,
)
    requires
        spec_initialized(a0, Ok(cfg), Ok(h1), a1, r1),
        spec_initialized(b0, Ok(cfg), Ok(h2), b1, r2),
    ensures
        session_equivalent(a1, b1),
{
}

/// A failed context switch, for an unknown name or an unreachable control
/// plane, leaves the session exactly as it was: the previous connection
/// handle is still the current one.
pub proof fn lemma_failed_switch_keeps_session(
    pre: Session,
    name: Seq<char>,
    conn: Result<u64, String>,
    post: Session,
    r: Result<(), ConnectError>,
)
    requires
        spec_switched(pre, name, conn, post, r),
        !(r is Ok),
    ensures
        post == pre,
        post.connection == pre.connection,
{
}

/// Switching towards a name that no known context carries fails with
/// [`ConnectError::UnknownContext`] and leaves the session untouched.
pub proof fn lemma_switch_unknown_context(
    pre: Session,
    name: Seq<char>,
    conn: Result<u64, String>,
    post: Session,
    r: Result<(), ConnectError>,
)
    requires
        spec_switched(pre, name, conn, post, r),
        !pre.spec_has_context(name),
    ensures
        r matches Err(e) && e matches ConnectError::UnknownContext { name: n } && n@ == name,
        post == pre,
{
}

} // verus!
