//! What the system is asked to execute.
//!
//! Program names, arguments, paths and variables are the raw bytes that the system sees; they need
//! not be text in any encoding.

use vstd::prelude::*;
use crate::stdio::Stdio;

verus! {

/// Copies bytes.
pub(crate) fn copied(bytes: &[u8]) -> (copy: Vec<u8>)
    ensures
        copy@ == bytes@,
{
    let mut copy: Vec<u8> = Vec::new();
    copy.extend_from_slice(bytes);
    assert(copy@ =~= bytes@);
    copy
}

fn copied_option(bytes: &Option<Vec<u8>>) -> (copy: Option<Vec<u8>>)
    ensures
        option_bytes(copy) == option_bytes(*bytes),
{
    match bytes {
        Some(bytes) => Some(copied(bytes.as_slice())),
        None => None,
    }
}

fn copied_list(list: &Vec<Vec<u8>>) -> (copy: Vec<Vec<u8>>)
    ensures
        list_bytes(copy@) == list_bytes(list@),
{
    let mut copy: Vec<Vec<u8>> = Vec::new();
    for i in 0..list.len()
        invariant
            copy.len() == i,
            forall|j: int| 0 <= j < i ==> #[trigger] copy[j]@ == list[j]@,
    {
        copy.push(copied(list[i].as_slice()));
    }
    assert(list_bytes(copy@) =~= list_bytes(list@));
    copy
}

/// The bytes in an optional string.
pub open spec fn option_bytes(bytes: Option<Vec<u8>>) -> Option<Seq<u8>> {
    match bytes {
        Some(bytes) => Some(bytes@),
        None => None,
    }
}

/// The bytes in each string of a list.
pub open spec fn list_bytes(list: Seq<Vec<u8>>) -> Seq<Seq<u8>> {
    list.map_values(|bytes: Vec<u8>| bytes@)
}

/// A change to the environment of the new process.
pub enum EnvChange {
    /// The variable is set to the value.
    Assign(Vec<u8>, Vec<u8>),
    /// The variable is removed.
    Remove(Vec<u8>),
    /// All variables are removed.
    Clear,
}

/// The contents of an [`EnvChange`].
#[verifier::ext_equal]
pub enum EnvChangeView {
    Assign(Seq<u8>, Seq<u8>),
    Remove(Seq<u8>),
    Clear,
}

impl View for EnvChange {
    type V = EnvChangeView;

    open spec fn view(&self) -> EnvChangeView {
        match *self {
            EnvChange::Assign(key, value) => EnvChangeView::Assign(key@, value@),
            EnvChange::Remove(key) => EnvChangeView::Remove(key@),
            EnvChange::Clear => EnvChangeView::Clear,
        }
    }
}

impl EnvChange {
    fn copied(&self) -> (copy: EnvChange)
        ensures
            copy@ == self@,
    {
        match self {
            EnvChange::Assign(key, value) => EnvChange::Assign(
                copied(key.as_slice()),
                copied(value.as_slice()),
            ),
            EnvChange::Remove(key) => EnvChange::Remove(copied(key.as_slice())),
            EnvChange::Clear => EnvChange::Clear,
        }
    }
}

/// The contents of each change of a list.
pub open spec fn change_views(changes: Seq<EnvChange>) -> Seq<EnvChangeView> {
    changes.map_values(|change: EnvChange| change@)
}

/// Whether `same` tells names of variables apart in a sensible way. Names are the same on Windows
/// when they differ in case alone, and everywhere else only when they are equal byte by byte.
pub open spec fn names(same: spec_fn(Seq<u8>, Seq<u8>) -> bool) -> bool {
    &&& forall|a: Seq<u8>| #[trigger] same(a, a)
    &&& forall|a: Seq<u8>, b: Seq<u8>| #[trigger] same(a, b) ==> same(b, a)
    &&& forall|a: Seq<u8>, b: Seq<u8>, c: Seq<u8>|
        #[trigger] same(a, b) && #[trigger] same(b, c) ==> same(a, c)
}

/// The value of the variable `key` in the new process, if it has one, when `changes` are made, in
/// turn, to the variables that the parent has at the moment of spawning. `inherited` gives those,
/// and `same` says which names are names of one variable.
pub open spec fn variable(
    changes: Seq<EnvChangeView>,
    inherited: spec_fn(Seq<u8>) -> Option<Seq<u8>>,
    same: spec_fn(Seq<u8>, Seq<u8>) -> bool,
    key: Seq<u8>,
) -> Option<Seq<u8>>
    decreases changes.len(),
{
    if changes.len() == 0 {
        inherited(key)
    } else {
        let before = variable(changes.drop_last(), inherited, same, key);
        match changes.last() {
            EnvChangeView::Assign(name, value) => if same(name, key) {
                Some(value)
            } else {
                before
            },
            EnvChangeView::Remove(name) => if same(name, key) {
                None
            } else {
                before
            },
            EnvChangeView::Clear => None,
        }
    }
}

/// A program with all that decides how it is executed.
pub struct Invocation {
    /// The program to execute.
    pub program: Vec<u8>,
    /// The first process argument, if it is to differ from the program's name.
    pub arg0: Option<Vec<u8>>,
    /// The arguments.
    pub args: Vec<Vec<u8>>,
    /// The changes to the inherited environment, in the order in which they are made.
    pub env: Vec<EnvChange>,
    /// The working directory, if it is not that of the parent.
    pub current_dir: Option<Vec<u8>>,
    /// The user to run as, if it is not that of the parent.
    pub uid: Option<u32>,
    /// The group to run as, if it is not that of the parent.
    pub gid: Option<u32>,
    /// What stdin is connected to, if that is settled.
    pub stdin: Option<Stdio>,
    /// What stdout is connected to, if that is settled.
    pub stdout: Option<Stdio>,
    /// What stderr is connected to, if that is settled.
    pub stderr: Option<Stdio>,
}

/// The contents of an [`Invocation`].
#[verifier::ext_equal]
pub struct InvocationView {
    pub program: Seq<u8>,
    pub arg0: Option<Seq<u8>>,
    pub args: Seq<Seq<u8>>,
    pub env: Seq<EnvChangeView>,
    pub current_dir: Option<Seq<u8>>,
    pub uid: Option<u32>,
    pub gid: Option<u32>,
    pub stdin: Option<Stdio>,
    pub stdout: Option<Stdio>,
    pub stderr: Option<Stdio>,
}

impl InvocationView {
    /// A program with nothing settled: no arguments, everything else as the parent has it.
    pub open spec fn plain(program: Seq<u8>) -> InvocationView {
        InvocationView {
            program,
            arg0: None,
            args: Seq::empty(),
            env: Seq::empty(),
            current_dir: None,
            uid: None,
            gid: None,
            stdin: None,
            stdout: None,
            stderr: None,
        }
    }
}

impl View for Invocation {
    type V = InvocationView;

    open spec fn view(&self) -> InvocationView {
        InvocationView {
            program: self.program@,
            arg0: option_bytes(self.arg0),
            args: list_bytes(self.args@),
            env: change_views(self.env@),
            current_dir: option_bytes(self.current_dir),
            uid: self.uid,
            gid: self.gid,
            stdin: self.stdin,
            stdout: self.stdout,
            stderr: self.stderr,
        }
    }
}

impl Invocation {
    /// An invocation of `program` without arguments, with everything else as the parent has it.
    pub fn new(program: &[u8]) -> (invocation: Invocation)
        ensures
            invocation@ == InvocationView::plain(program@),
    {
        let invocation = Invocation {
            program: copied(program),
            arg0: None,
            args: Vec::new(),
            env: Vec::new(),
            current_dir: None,
            uid: None,
            gid: None,
            stdin: None,
            stdout: None,
            stderr: None,
        };
        assert(invocation@ =~= InvocationView::plain(program@));
        invocation
    }

    /// Copies the invocation.
    pub fn copied(&self) -> (copy: Invocation)
        ensures
            copy@ == self@,
    {
        let mut env: Vec<EnvChange> = Vec::new();
        for i in 0..self.env.len()
            invariant
                env.len() == i,
                forall|j: int| 0 <= j < i ==> #[trigger] env[j]@ == self.env[j]@,
        {
            env.push(self.env[i].copied());
        }
        assert(change_views(env@) =~= change_views(self.env@));
        Invocation {
            program: copied(self.program.as_slice()),
            arg0: copied_option(&self.arg0),
            args: copied_list(&self.args),
            env,
            current_dir: copied_option(&self.current_dir),
            uid: self.uid,
            gid: self.gid,
            stdin: self.stdin,
            stdout: self.stdout,
            stderr: self.stderr,
        }
    }
}

} // verus!
