//! Single-slot shortcut registry: a map from logical binding name to the
//! accelerator string currently registered with the OS hotkey layer.
//!
//! A rebind is clear-then-set: `begin_rebind` empties the registry and hands
//! back every previously stored accelerator so the caller can unregister it
//! at the OS layer, `plan_rebind` decides what (if anything) must be newly
//! registered, and `record_registered` stores the binding once the caller
//! has registered it. The invariant: every stored accelerator parses.

use vstd::prelude::*;
use vstd::string::StringExecFns;

use crate::accel::ParseError;
use crate::accel::ParsedAccelerator;
use crate::accel::Platform;
use crate::accel::SpecParseError;
use crate::accel::parse;
use crate::accel::spec_parse;

verus! {

/// Why a rebind failed, at the specification level.
pub ghost enum SpecBindError {
    InvalidFormat(SpecParseError),
    RegisterFailed(Seq<char>),
}

/// Why a rebind failed: the accelerator string did not parse, or the OS
/// hotkey layer refused the registration (its message is kept).
#[derive(Debug)]
pub enum BindError {
    InvalidFormat(ParseError),
    RegisterFailed(String),
}

impl View for BindError {
    type V = SpecBindError;

    open spec fn view(&self) -> SpecBindError {
        match self {
            BindError::InvalidFormat(e) => SpecBindError::InvalidFormat(e@),
            BindError::RegisterFailed(m) => SpecBindError::RegisterFailed(m@),
        }
    }
}

/// What a rebind must newly register: nothing when disabling or when the
/// accelerator string is empty, otherwise the parsed accelerator.
pub open spec fn spec_plan(s: Seq<char>, enabled: bool, p: Platform) -> Result<
    Option<ParsedAccelerator>,
    SpecParseError,
> {
    if !enabled || s.len() == 0 {
        Ok(None)
    } else {
        match spec_parse(s, p) {
            Ok(a) => Ok(Some(a)),
            Err(e) => Err(e),
        }
    }
}

/// How an executable plan corresponds to the specification-level one.
pub open spec fn plan_matches(
    r: Result<Option<ParsedAccelerator>, BindError>,
    s: Result<Option<ParsedAccelerator>, SpecParseError>,
) -> bool {
    match r {
        Ok(o) => s == Ok::<Option<ParsedAccelerator>, SpecParseError>(o),
        Err(be) => match be@ {
            SpecBindError::InvalidFormat(e1) => s matches Err(e2) && e1 == e2,
            SpecBindError::RegisterFailed(_) => false,
        },
    }
}

/// Decide what a rebind must register with the OS hotkey layer.
///
/// Disabling, or an empty accelerator string, asks for nothing; otherwise
/// the string must parse, and a parse failure is surfaced as
/// `InvalidFormat` with the exact parse error inside.
pub fn plan_rebind(shortcut: &str, enabled: bool, platform: Platform) -> (r: Result<
    Option<ParsedAccelerator>,
    BindError,
>)
    ensures
        plan_matches(r, spec_plan(shortcut@, enabled, platform)),
{
    if !enabled || shortcut.unicode_len() == 0 {
        Ok(None)
    } else {
        match parse(shortcut, platform) {
            Ok(a) => Ok(Some(a)),
            Err(e) => Err(BindError::InvalidFormat(e)),
        }
    }
}

/// The registry contents after the clearing half of a rebind.
pub open spec fn spec_cleared() -> Seq<(Seq<char>, Seq<char>)> {
    Seq::empty()
}

/// The registry contents after recording a newly registered binding over an
/// empty registry.
pub open spec fn spec_recorded(name: Seq<char>, accel: Seq<char>) -> Seq<(Seq<char>, Seq<char>)> {
    seq![(name, accel)]
}

/// The logical name of the one rebindable binding this application uses.
pub fn default_binding_name() -> (r: &'static str)
    ensures
        r@ == "quickPicker"@,
{
    "quickPicker"
}

/// The accelerator string the quick-picker binding is seeded with at
/// startup (registered best-effort; a seeding failure is not fatal).
pub fn default_accelerator() -> (r: &'static str)
    ensures
        r@ == "CommandOrControl+Shift+P"@,
{
    "CommandOrControl+Shift+P"
}

/// The in-memory map from logical binding name to the accelerator string
/// currently registered with the OS, for one fixed platform.
pub struct ShortcutRegistry {
    platform: Platform,
    entries: Vec<(String, String)>,
}

impl View for ShortcutRegistry {
    type V = Seq<(Seq<char>, Seq<char>)>;

    closed spec fn view(&self) -> Seq<(Seq<char>, Seq<char>)> {
        self.entries@.map_values(|e: (String, String)| (e.0@, e.1@))
    }
}

impl ShortcutRegistry {
    /// The platform whose modifier mapping this registry's accelerators
    /// were parsed under.
    pub closed spec fn platform(&self) -> Platform {
        self.platform
    }

    /// Every stored accelerator parses, and no binding name repeats.
    pub closed spec fn wf(&self) -> bool {
        &&& forall|i: int|
            0 <= i < self@.len() ==> spec_parse(#[trigger] self@[i].1, self.platform) is Ok
        &&& forall|i: int, j: int|
            0 <= i < j < self@.len() ==> #[trigger] self@[i].0 != #[trigger] self@[j].0
    }

    /// A fresh registry holds no binding.
    pub fn new(platform: Platform) -> (r: ShortcutRegistry)
        ensures
            r.wf(),
            r@ == Seq::<(Seq<char>, Seq<char>)>::empty(),
            r.platform() == platform,
    {
        let r = ShortcutRegistry { platform, entries: Vec::new() };
        proof {
            assert(r@ =~= Seq::<(Seq<char>, Seq<char>)>::empty());
        }
        r
    }

    pub fn binding_count(&self) -> (n: usize)
        ensures
            n == self@.len(),
    {
        self.entries.len()
    }

    pub fn platform_of(&self) -> (p: Platform)
        ensures
            p == self.platform(),
    {
        self.platform
    }

    /// Empty the registry and hand back every stored accelerator string, so
    /// the caller can unregister each at the OS hotkey layer. Every returned
    /// string is guaranteed to parse under this registry's platform.
    pub fn begin_rebind(&mut self) -> (olds: Vec<String>)
        requires
            old(self).wf(),
        ensures
            final(self).wf(),
            final(self)@ == spec_cleared(),
            final(self).platform() == old(self).platform(),
            olds@.len() == old(self)@.len(),
            forall|i: int| 0 <= i < olds@.len() ==> (#[trigger] olds@[i])@ == old(self)@[i].1,
            forall|i: int|
                0 <= i < olds@.len() ==> spec_parse(
                    (#[trigger] olds@[i])@,
                    old(self).platform(),
                ) is Ok,
    {
        let mut olds: Vec<String> = Vec::new();
        let n = self.entries.len();
        let mut i: usize = 0;
        while i < n
            invariant
                i <= n,
                *self == *old(self),
                n == self.entries@.len(),
                olds@.len() == i,
                forall|j: int|
                    0 <= j < i ==> (#[trigger] olds@[j])@ == self.entries@[j].1@,
            decreases n - i,
        {
            olds.push(self.entries[i].1.clone());
            i += 1;
        }
        self.entries = Vec::new();
        proof {
            assert(self@ =~= Seq::<(Seq<char>, Seq<char>)>::empty());
            assert forall|i: int| 0 <= i < olds@.len() implies spec_parse(
                (#[trigger] olds@[i])@,
                old(self).platform(),
            ) is Ok by {
                assert((olds@[i])@ == old(self)@[i].1);
                assert(spec_parse(old(self)@[i].1, old(self).platform()) is Ok);
            }
        }
        olds
    }

    /// Store a binding that the caller has just registered with the OS.
    /// Only called on an empty registry (right after `begin_rebind`), with
    /// an accelerator string known to parse.
    pub fn record_registered(&mut self, name: &str, shortcut: &str)
        requires
            old(self).wf(),
            old(self)@.len() == 0,
            spec_parse(shortcut@, old(self).platform()) is Ok,
        ensures
            final(self).wf(),
            final(self)@ == spec_recorded(name@, shortcut@),
            final(self).platform() == old(self).platform(),
    {
        self.entries.push((String::from_str(name), String::from_str(shortcut)));
        proof {
            assert(self@ =~= spec_recorded(name@, shortcut@));
        }
    }

    /// The accelerator currently bound under `name`, if any.
    pub fn current_accel(&self, name: &str) -> (r: Option<String>)
        ensures
            match r {
                Some(a) => exists|i: int|
                    0 <= i < self@.len() && #[trigger] self@[i] == (name@, a@),
                None => forall|i: int| 0 <= i < self@.len() ==> (#[trigger] self@[i]).0 != name@,
            },
    {
        let n = self.entries.len();
        let mut i: usize = 0;
        while i < n
            invariant
                i <= n,
                n == self.entries@.len(),
                forall|j: int| 0 <= j < i ==> (#[trigger] self@[j]).0 != name@,
            decreases n - i,
        {
            if crate::accel::str_eq(self.entries[i].0.as_str(), name) {
                let found = self.entries[i].1.clone();
                proof {
                    assert(self@[i as int] == (name@, found@));
                }
                return Some(found);
            }
            i += 1;
        }
        None
    }
}

/// Rebinding twice in sequence leaves exactly one binding: the second.
/// Each rebind clears the registry before recording, so whatever was bound
/// before (the first accelerator included) is gone, and only the binding
/// recorded last remains.
pub proof fn lemma_rebind_twice(
    name1: Seq<char>,
    accel1: Seq<char>,
    name2: Seq<char>,
    accel2: Seq<char>,
)
    ensures
        spec_recorded(name2, accel2).len() == 1,
        spec_recorded(name2, accel2)[0] == (name2, accel2),
        accel1 != accel2 ==> !spec_recorded(name2, accel2).contains((name1, accel1)),
{
    assert(spec_recorded(name2, accel2)[0] == (name2, accel2));
    if accel1 != accel2 {
        assert forall|i: int|
            0 <= i < spec_recorded(name2, accel2).len() implies spec_recorded(name2, accel2)[i]
            != (name1, accel1) by {
            assert(spec_recorded(name2, accel2)[i] == (name2, accel2));
        }
    }
}

/// A failed rebind leaves the registry with zero bindings: the clearing
/// half has already run, and a plan that fails records nothing.
pub proof fn lemma_failed_rebind_leaves_empty(s: Seq<char>, enabled: bool, p: Platform)
    requires
        spec_plan(s, enabled, p) is Err,
    ensures
        spec_cleared().len() == 0,
        spec_parse(s, p) is Err,
{
}

} // verus!
