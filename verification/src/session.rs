//! The ownership session: the steps that make a client the owner of
//! `CLIPBOARD` and `PRIMARY`, and what it holds once it is.
//!
//! Setting up is a dialogue with the server. [`SessionSetup`] says which
//! request comes next and takes the server's answer to it; whoever holds the
//! connection sends the one and brings back the other.

use crate::atoms::{
    complete, first_unbound_is, resolved, AtomTable, WellKnown, NAME_COUNT,
};
use crate::protocol::{
    Atom, Timestamp, Window, COPY_FROM_PARENT, CURRENT_TIME, EVENT_MASK_STRUCTURE_NOTIFY,
    WINDOW_CLASS_INPUT_OUTPUT,
};
use vstd::prelude::*;

verus! {

/// Width and height of the proxy window: the smallest that a server accepts.
pub const PROXY_SIZE: u16 = 1;

/// A request to the server that is part of setting up the session.
#[derive(Clone, Copy, Debug, PartialEq, Eq, Structural)]
pub enum SetupRequest {
    /// Create the proxy window.
    CreateWindow {
        depth: u8,
        window: Window,
        parent: Window,
        x: i16,
        y: i16,
        width: u16,
        height: u16,
        border_width: u16,
        class: u16,
        visual: u32,
        event_mask: u32,
    },
    /// Ask for the atom of a symbolic name.
    InternAtom { only_if_exists: bool, name: WellKnown },
    /// Make `owner` the owner of `selection`.
    SetSelectionOwner { owner: Window, selection: Atom, time: Timestamp },
    /// Push everything written so far out to the server.
    Flush,
}

/// The server's answer to a [`SetupRequest`].
#[derive(Clone, Copy, Debug, PartialEq, Eq, Structural)]
pub enum SetupReply {
    /// The request went through; it has no value to give back.
    Done,
    /// The atom asked for.
    Atom(Atom),
    /// The request failed.
    Failed,
}

/// Why a session could not be set up.
#[derive(Clone, Copy, Debug, PartialEq, Eq, Structural)]
pub enum SetupError {
    /// The server did not create the proxy window.
    WindowRejected,
    /// The name has no atom.
    Unresolved(WellKnown),
    /// The server did not make the proxy window the owner of the selection
    /// of this name.
    OwnershipRejected(WellKnown),
    /// The requests could not be pushed out to the server.
    ConnectionLost,
    /// The setup was ended before its last step.
    Unfinished,
}

/// Where the setup stands: the request that is to be answered next.
#[derive(Clone, Copy, Debug, PartialEq, Eq, Structural)]
pub enum SetupStep {
    CreateWindow,
    Intern(WellKnown),
    Claim(WellKnown),
    Flush,
    Ready,
    Failed(SetupError),
}

/// What a [`SessionSetup`] holds.
pub struct SetupModel {
    pub root: Window,
    pub visual: u32,
    pub window: Window,
    pub atoms: Map<WellKnown, Atom>,
    pub step: SetupStep,
}

impl SetupModel {
    /// The state before the first request.
    pub open spec fn initial(root: Window, visual: u32, window: Window) -> SetupModel {
        SetupModel { root, visual, window, atoms: Map::empty(), step: SetupStep::CreateWindow }
    }

    /// Every name is resolved before the first selection is claimed, and the
    /// names are resolved in their order.
    pub open spec fn wf(self) -> bool {
        match self.step {
            SetupStep::CreateWindow => true,
            SetupStep::Intern(name) => forall|earlier: WellKnown|
                earlier.position() < name.position() ==> self.atoms.dom().contains(earlier),
            SetupStep::Claim(name) => complete(self.atoms) && (name == WellKnown::Clipboard || name
                == WellKnown::Primary),
            SetupStep::Flush => complete(self.atoms),
            SetupStep::Ready => complete(self.atoms),
            SetupStep::Failed(_) => true,
        }
    }

    /// The request to send in this state; `None` once the setup has
    /// succeeded or failed.
    pub open spec fn pending(self) -> Option<SetupRequest> {
        match self.step {
            SetupStep::CreateWindow => Some(
                SetupRequest::CreateWindow {
                    depth: COPY_FROM_PARENT,
                    window: self.window,
                    parent: self.root,
                    x: 0,
                    y: 0,
                    width: PROXY_SIZE,
                    height: PROXY_SIZE,
                    border_width: 0,
                    class: WINDOW_CLASS_INPUT_OUTPUT,
                    visual: self.visual,
                    event_mask: EVENT_MASK_STRUCTURE_NOTIFY,
                },
            ),
            SetupStep::Intern(name) => Some(
                SetupRequest::InternAtom { only_if_exists: false, name },
            ),
            SetupStep::Claim(name) => Some(
                SetupRequest::SetSelectionOwner {
                    owner: self.window,
                    selection: self.atoms[name],
                    time: CURRENT_TIME,
                },
            ),
            SetupStep::Flush => Some(SetupRequest::Flush),
            SetupStep::Ready => None,
            SetupStep::Failed(_) => None,
        }
    }

    /// The state after the server has answered the pending request with
    /// `reply`. Each step takes one form of answer; any other fails the
    /// setup. A setup that has succeeded or failed stays as it is.
    pub open spec fn advanced(self, reply: SetupReply) -> SetupModel {
        match self.step {
            SetupStep::CreateWindow => if reply == SetupReply::Done {
                SetupModel { step: SetupStep::Intern(WellKnown::Clipboard), ..self }
            } else {
                SetupModel { step: SetupStep::Failed(SetupError::WindowRejected), ..self }
            },
            SetupStep::Intern(name) => match reply {
                SetupReply::Atom(atom) => SetupModel {
                    atoms: resolved(self.atoms, name, atom),
                    step: match name.successor() {
                        Some(next) => SetupStep::Intern(next),
                        None => SetupStep::Claim(WellKnown::Clipboard),
                    },
                    ..self
                },
                _ => SetupModel { step: SetupStep::Failed(SetupError::Unresolved(name)), ..self },
            },
            SetupStep::Claim(name) => if reply == SetupReply::Done {
                SetupModel {
                    step: if name == WellKnown::Clipboard {
                        SetupStep::Claim(WellKnown::Primary)
                    } else {
                        SetupStep::Flush
                    },
                    ..self
                }
            } else {
                SetupModel { step: SetupStep::Failed(SetupError::OwnershipRejected(name)), ..self }
            },
            SetupStep::Flush => if reply == SetupReply::Done {
                SetupModel { step: SetupStep::Ready, ..self }
            } else {
                SetupModel { step: SetupStep::Failed(SetupError::ConnectionLost), ..self }
            },
            SetupStep::Ready => self,
            SetupStep::Failed(_) => self,
        }
    }

    /// How the setup ends if it is ended in this state.
    pub open spec fn outcome(self) -> Result<SessionModel, SetupError> {
        match self.step {
            SetupStep::Ready => Ok(SessionModel { window: self.window, atoms: self.atoms }),
            SetupStep::Failed(error) => Err(error),
            _ => Err(SetupError::Unfinished),
        }
    }
}

/// Every step keeps the order: whatever the server answers, no selection is
/// claimed before every name is resolved.
pub proof fn lemma_advance_keeps_order(setup: SetupModel, reply: SetupReply)
    requires
        setup.wf(),
    ensures
        setup.advanced(reply).wf(),
        setup.advanced(reply).pending() matches Some(SetupRequest::SetSelectionOwner { .. })
            ==> complete(setup.advanced(reply).atoms),
{
}

/// A setup that has failed stays failed, and one that is ready stays ready:
/// no answer moves it.
pub proof fn lemma_end_is_final(setup: SetupModel, reply: SetupReply)
    requires
        setup.pending() is None,
    ensures
        setup.advanced(reply) == setup,
{
}

/// The setup that meets no failure. After the window is made and the server
/// has given the atoms `atoms`, one for each name in the order of
/// resolution, the proxy window claims `CLIPBOARD`, then `PRIMARY`, each by
/// its atom and for the current time; after the flush the session stands,
/// with each name bound to the atom that the server gave for it.
pub proof fn lemma_setup_succeeds(root: Window, visual: u32, window: Window, atoms: Seq<Atom>)
    requires
        atoms.len() == NAME_COUNT,
    ensures
        ({
            let named = SetupModel::initial(root, visual, window).advanced(
                SetupReply::Done,
            ).advanced(SetupReply::Atom(atoms[0])).advanced(SetupReply::Atom(atoms[1])).advanced(
                SetupReply::Atom(atoms[2]),
            ).advanced(SetupReply::Atom(atoms[3])).advanced(SetupReply::Atom(atoms[4])).advanced(
                SetupReply::Atom(atoms[5]),
            ).advanced(SetupReply::Atom(atoms[6]));
            let claimed = named.advanced(SetupReply::Done);
            let ready = claimed.advanced(SetupReply::Done).advanced(SetupReply::Done);
            &&& named.pending() == Some(
                SetupRequest::SetSelectionOwner {
                    owner: window,
                    selection: atoms[0],
                    time: CURRENT_TIME,
                },
            )
            &&& claimed.pending() == Some(
                SetupRequest::SetSelectionOwner {
                    owner: window,
                    selection: atoms[1],
                    time: CURRENT_TIME,
                },
            )
            &&& ready.outcome() == Ok::<SessionModel, SetupError>(
                SessionModel {
                    window,
                    atoms: Map::new(
                        |name: WellKnown| true,
                        |name: WellKnown| atoms[name.position()],
                    ),
                },
            )
        }),
{
    let named = SetupModel::initial(root, visual, window).advanced(SetupReply::Done).advanced(
        SetupReply::Atom(atoms[0]),
    ).advanced(SetupReply::Atom(atoms[1])).advanced(SetupReply::Atom(atoms[2])).advanced(
        SetupReply::Atom(atoms[3]),
    ).advanced(SetupReply::Atom(atoms[4])).advanced(SetupReply::Atom(atoms[5])).advanced(
        SetupReply::Atom(atoms[6]),
    );
    assert(named.atoms =~= Map::new(
        |name: WellKnown| true,
        |name: WellKnown| atoms[name.position()],
    ));
}

/// What a [`Session`] holds.
pub struct SessionModel {
    pub window: Window,
    pub atoms: Map<WellKnown, Atom>,
}

/// The session of a selection owner: its proxy window and its atoms. Every
/// name is bound in it.
#[derive(Debug)]
pub struct Session {
    window: Window,
    atoms: AtomTable,
}

impl View for Session {
    type V = SessionModel;

    closed spec fn view(&self) -> SessionModel {
        SessionModel { window: self.window, atoms: self.atoms@ }
    }
}

impl Session {
    #[verifier::type_invariant]
    pub(crate) open spec fn inv(self) -> bool {
        complete(self@.atoms)
    }

    /// A session of the owner `window` with the atoms of `atoms`. Fails with
    /// the first name that is not bound there.
    pub fn new(window: Window, atoms: AtomTable) -> (session: Result<Session, SetupError>)
        ensures
            match session {
                Ok(s) => complete(atoms@) && s@ == (SessionModel { window, atoms: atoms@ }),
                Err(error) => error matches SetupError::Unresolved(name) && first_unbound_is(
                    atoms@,
                    name,
                ),
            },
    {
        match atoms.first_unbound() {
            Some(name) => Err(SetupError::Unresolved(name)),
            None => Ok(Session { window, atoms }),
        }
    }

    /// The proxy window that owns the selections.
    pub fn window(&self) -> (window: Window)
        ensures
            window == self@.window,
    {
        self.window
    }

    /// The atoms of the session.
    pub fn atoms(&self) -> (atoms: &AtomTable)
        ensures
            atoms@ == self@.atoms,
            complete(atoms@),
    {
        proof {
            use_type_invariant(self);
        }
        &self.atoms
    }

    /// The atom of `name`.
    pub fn atom(&self, name: WellKnown) -> (atom: Atom)
        ensures
            self@.atoms.dom().contains(name),
            atom == self@.atoms[name],
    {
        proof {
            use_type_invariant(self);
        }
        self.atoms.lookup(name).unwrap()
    }
}

/// The setup of a session, one request at a time.
#[derive(Debug)]
pub struct SessionSetup {
    root: Window,
    visual: u32,
    window: Window,
    atoms: AtomTable,
    step: SetupStep,
}

impl View for SessionSetup {
    type V = SetupModel;

    closed spec fn view(&self) -> SetupModel {
        SetupModel {
            root: self.root,
            visual: self.visual,
            window: self.window,
            atoms: self.atoms@,
            step: self.step,
        }
    }
}

impl SessionSetup {
    #[verifier::type_invariant]
    spec fn inv(self) -> bool {
        self@.wf()
    }

    /// Starts the setup of a session on the screen with the root window
    /// `root` and the visual `visual`. `window` is the fresh identifier that
    /// the proxy window gets.
    pub fn new(root: Window, visual: u32, window: Window) -> (setup: SessionSetup)
        ensures
            setup@ == SetupModel::initial(root, visual, window),
    {
        SessionSetup { root, visual, window, atoms: AtomTable::new(), step: SetupStep::CreateWindow }
    }

    /// Where the setup stands.
    pub fn step(&self) -> (step: SetupStep)
        ensures
            step == self@.step,
            self@.wf(),
    {
        proof {
            use_type_invariant(self);
        }
        self.step
    }

    /// The request to send next; `None` once the setup has succeeded or
    /// failed.
    pub fn request(&self) -> (request: Option<SetupRequest>)
        ensures
            request == self@.pending(),
            self@.wf(),
    {
        proof {
            use_type_invariant(self);
        }
        match self.step {
            SetupStep::CreateWindow => Some(
                SetupRequest::CreateWindow {
                    depth: COPY_FROM_PARENT,
                    window: self.window,
                    parent: self.root,
                    x: 0,
                    y: 0,
                    width: PROXY_SIZE,
                    height: PROXY_SIZE,
                    border_width: 0,
                    class: WINDOW_CLASS_INPUT_OUTPUT,
                    visual: self.visual,
                    event_mask: EVENT_MASK_STRUCTURE_NOTIFY,
                },
            ),
            SetupStep::Intern(name) => Some(
                SetupRequest::InternAtom { only_if_exists: false, name },
            ),
            SetupStep::Claim(name) => Some(
                SetupRequest::SetSelectionOwner {
                    owner: self.window,
                    selection: self.atoms.lookup(name).unwrap(),
                    time: CURRENT_TIME,
                },
            ),
            SetupStep::Flush => Some(SetupRequest::Flush),
            SetupStep::Ready => None,
            SetupStep::Failed(_) => None,
        }
    }

    /// Takes the server's answer to the pending request and moves on.
    pub fn advance(self, reply: SetupReply) -> (next: SessionSetup)
        ensures
            next@ == self@.advanced(reply),
            next@.wf(),
    {
        proof {
            use_type_invariant(&self);
        }
        let SessionSetup { root, visual, window, atoms, step } = self;
        let mut atoms = atoms;
        let step = match step {
            SetupStep::CreateWindow => match reply {
                SetupReply::Done => SetupStep::Intern(WellKnown::Clipboard),
                _ => SetupStep::Failed(SetupError::WindowRejected),
            },
            SetupStep::Intern(name) => match reply {
                SetupReply::Atom(atom) => {
                    atoms.resolve(name, atom);
                    match name.next() {
                        Some(next) => SetupStep::Intern(next),
                        None => SetupStep::Claim(WellKnown::Clipboard),
                    }
                },
                _ => SetupStep::Failed(SetupError::Unresolved(name)),
            },
            SetupStep::Claim(name) => match reply {
                SetupReply::Done => match name {
                    WellKnown::Clipboard => SetupStep::Claim(WellKnown::Primary),
                    _ => SetupStep::Flush,
                },
                _ => SetupStep::Failed(SetupError::OwnershipRejected(name)),
            },
            SetupStep::Flush => match reply {
                SetupReply::Done => SetupStep::Ready,
                _ => SetupStep::Failed(SetupError::ConnectionLost),
            },
            SetupStep::Ready => SetupStep::Ready,
            SetupStep::Failed(error) => SetupStep::Failed(error),
        };
        SessionSetup { root, visual, window, atoms, step }
    }

    /// Ends the setup: the session if the last step is done, the error if a
    /// step failed, [`SetupError::Unfinished`] otherwise.
    pub fn finish(self) -> (session: Result<Session, SetupError>)
        ensures
            match session {
                Ok(s) => self@.outcome() == Ok::<SessionModel, SetupError>(s@),
                Err(error) => self@.outcome() == Err::<SessionModel, SetupError>(error),
            },
    {
        proof {
            use_type_invariant(&self);
        }
        match self.step {
            SetupStep::Ready => Ok(Session { window: self.window, atoms: self.atoms }),
            SetupStep::Failed(error) => Err(error),
            _ => Err(SetupError::Unfinished),
        }
    }
}

} // verus!
