//! The animation catalog: the seven semantic clip names and the clip each one
//! resolves to.

use vstd::prelude::*;

verus! {

/// The semantic name of a clip.
#[derive(Clone, Copy, Debug, PartialEq, Eq, Structural)]
pub enum ClipName {
    Idle,
    Walk,
    WalkBackwards,
    Run,
    RunBackwards,
    LeftTurn,
    RightTurn,
}

/// An opaque reference to a clip: the index of the animation inside the
/// packaged model that the asset pipeline was asked for.
#[derive(Clone, Copy, Debug, PartialEq, Eq, Structural)]
pub struct ClipRef {
    pub index: u32,
}

/// Why a catalog could not be set up.
#[derive(Clone, Copy, Debug, PartialEq, Eq, Structural)]
pub enum ConfigError {
    /// No entry was given for this name.
    MissingClip(ClipName),
}

/// The clip behind each semantic name. A catalog is total: it is made once,
/// when the character is spawned, and every name resolves from then on.
#[derive(Clone, Copy, Debug, PartialEq, Eq, Structural)]
pub struct AnimationCatalog {
    pub idle: ClipRef,
    pub walk: ClipRef,
    pub walk_backwards: ClipRef,
    pub run: ClipRef,
    pub run_backwards: ClipRef,
    pub left_turn: ClipRef,
    pub right_turn: ClipRef,
}

impl ClipName {
    /// The place of the name in the catalog's order, in which missing
    /// entries are reported.
    pub open spec fn rank(self) -> nat {
        match self {
            ClipName::Idle => 0,
            ClipName::Walk => 1,
            ClipName::WalkBackwards => 2,
            ClipName::Run => 3,
            ClipName::RunBackwards => 4,
            ClipName::LeftTurn => 5,
            ClipName::RightTurn => 6,
        }
    }
}

/// The clip of the first entry at or after `start` that carries `name`.
pub open spec fn listed_from(entries: Seq<(ClipName, ClipRef)>, name: ClipName, start: int) -> Option<
    ClipRef,
>
    decreases entries.len() - start,
{
    if start < 0 || start >= entries.len() {
        None
    } else if entries[start].0 == name {
        Some(entries[start].1)
    } else {
        listed_from(entries, name, start + 1)
    }
}

/// The clip that a listing gives for `name`: that of the first entry with the
/// name, if there is one.
pub open spec fn listed(entries: Seq<(ClipName, ClipRef)>, name: ClipName) -> Option<ClipRef> {
    listed_from(entries, name, 0)
}

/// A name is missing from a listing exactly when no entry carries it, and
/// otherwise resolves to the clip of the first entry that does.
pub proof fn lemma_listed_is_first_entry(entries: Seq<(ClipName, ClipRef)>, name: ClipName)
    ensures
        match listed(entries, name) {
            Some(clip) => exists|i: int|
                0 <= i < entries.len() && #[trigger] entries[i].0 == name && entries[i].1 == clip
                    && forall|j: int| 0 <= j < i ==> (#[trigger] entries[j]).0 != name,
            None => forall|i: int| 0 <= i < entries.len() ==> (#[trigger] entries[i]).0 != name,
        },
{
    lemma_listed_from(entries, name, 0);
}

proof fn lemma_listed_from(entries: Seq<(ClipName, ClipRef)>, name: ClipName, start: int)
    requires
        0 <= start <= entries.len(),
    ensures
        match listed_from(entries, name, start) {
            Some(clip) => exists|i: int|
                start <= i < entries.len() && #[trigger] entries[i].0 == name && entries[i].1
                    == clip && forall|j: int| start <= j < i ==> (#[trigger] entries[j]).0 != name,
            None => forall|i: int| start <= i < entries.len() ==> (#[trigger] entries[i]).0 != name,
        },
    decreases entries.len() - start,
{
    if start < entries.len() {
        if entries[start].0 == name {
            assert(forall|j: int| start <= j < start ==> (#[trigger] entries[j]).0 != name);
        } else {
            lemma_listed_from(entries, name, start + 1);
            match listed_from(entries, name, start + 1) {
                Some(clip) => {
                    let i = choose|i: int|
                        start + 1 <= i < entries.len() && #[trigger] entries[i].0 == name
                            && entries[i].1 == clip && forall|j: int|
                            start + 1 <= j < i ==> (#[trigger] entries[j]).0 != name;
                    assert(forall|j: int| start <= j < i ==> (#[trigger] entries[j]).0 != name);
                },
                None => {},
            }
        }
    }
}

/// Looks `name` up in a listing.
pub fn find_clip(entries: &Vec<(ClipName, ClipRef)>, name: ClipName) -> (found: Option<ClipRef>)
    ensures
        found == listed(entries@, name),
{
    let mut i: usize = 0;
    while i < entries.len()
        invariant
            i <= entries.len(),
            listed(entries@, name) == listed_from(entries@, name, i as int),
        decreases entries.len() - i,
    {
        if entries[i].0 == name {
            return Some(entries[i].1);
        }
        i += 1;
    }
    None
}

impl AnimationCatalog {
    /// The clip that `name` resolves to.
    pub open spec fn clip(self, name: ClipName) -> ClipRef {
        match name {
            ClipName::Idle => self.idle,
            ClipName::Walk => self.walk,
            ClipName::WalkBackwards => self.walk_backwards,
            ClipName::Run => self.run,
            ClipName::RunBackwards => self.run_backwards,
            ClipName::LeftTurn => self.left_turn,
            ClipName::RightTurn => self.right_turn,
        }
    }

    /// Sets the catalog up from a listing of names and clips, as startup
    /// validation: it succeeds exactly when every name is listed, and
    /// otherwise reports the first name, in the catalog's order, that is not.
    pub fn from_entries(entries: &Vec<(ClipName, ClipRef)>) -> (made: Result<
        AnimationCatalog,
        ConfigError,
    >)
        ensures
            made is Ok <==> forall|name: ClipName| listed(entries@, name) is Some,
            made matches Ok(catalog) ==> forall|name: ClipName|
                listed(entries@, name) == Some(#[trigger] catalog.clip(name)),
            made matches Err(ConfigError::MissingClip(missing)) ==> listed(entries@, missing) is None
                && forall|name: ClipName|
                name.rank() < missing.rank() ==> (#[trigger] listed(entries@, name)) is Some,
    {
        let idle = match find_clip(entries, ClipName::Idle) {
            Some(clip) => clip,
            None => { return Err(ConfigError::MissingClip(ClipName::Idle)); },
        };
        let walk = match find_clip(entries, ClipName::Walk) {
            Some(clip) => clip,
            None => { return Err(ConfigError::MissingClip(ClipName::Walk)); },
        };
        let walk_backwards = match find_clip(entries, ClipName::WalkBackwards) {
            Some(clip) => clip,
            None => { return Err(ConfigError::MissingClip(ClipName::WalkBackwards)); },
        };
        let run = match find_clip(entries, ClipName::Run) {
            Some(clip) => clip,
            None => { return Err(ConfigError::MissingClip(ClipName::Run)); },
        };
        let run_backwards = match find_clip(entries, ClipName::RunBackwards) {
            Some(clip) => clip,
            None => { return Err(ConfigError::MissingClip(ClipName::RunBackwards)); },
        };
        let left_turn = match find_clip(entries, ClipName::LeftTurn) {
            Some(clip) => clip,
            None => { return Err(ConfigError::MissingClip(ClipName::LeftTurn)); },
        };
        let right_turn = match find_clip(entries, ClipName::RightTurn) {
            Some(clip) => clip,
            None => { return Err(ConfigError::MissingClip(ClipName::RightTurn)); },
        };
        let catalog = AnimationCatalog {
            idle,
            walk,
            walk_backwards,
            run,
            run_backwards,
            left_turn,
            right_turn,
        };
        assert forall|name: ClipName| listed(entries@, name) == Some(#[trigger] catalog.clip(name)) by {
            match name {
                ClipName::Idle => {},
                ClipName::Walk => {},
                ClipName::WalkBackwards => {},
                ClipName::Run => {},
                ClipName::RunBackwards => {},
                ClipName::LeftTurn => {},
                ClipName::RightTurn => {},
            }
        }
        Ok(catalog)
    }

    /// The clip behind a semantic name.
    pub fn resolve(&self, name: ClipName) -> (clip: ClipRef)
        ensures
            clip == self.clip(name),
    {
        match name {
            ClipName::Idle => self.idle,
            ClipName::Walk => self.walk,
            ClipName::WalkBackwards => self.walk_backwards,
            ClipName::Run => self.run,
            ClipName::RunBackwards => self.run_backwards,
            ClipName::LeftTurn => self.left_turn,
            ClipName::RightTurn => self.right_turn,
        }
    }
}

} // verus!
