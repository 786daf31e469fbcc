//! The table from clip names to animation-graph nodes, built once when the
//! character's animation set is loaded, and the resolution of playback
//! commands against it.
//!
//! A command that names a clip missing from the table is never played: the
//! whole tick's commands are refused, with the missing clip, and the caller
//! skips the tick.
use vstd::prelude::*;
use crate::animation::{Clip, PlaybackCommand};

verus! {

/// One named clip and the graph node that plays it.
#[derive(Clone, Debug)]
pub struct BindingEntry {
    pub name: String,
    pub node: u32,
}

/// Clip names bound to animation-graph nodes, each name at most once.
#[derive(Clone, Debug)]
pub struct AnimationBinding {
    pub entries: Vec<BindingEntry>,
}

/// A playback command addressed to a graph node.
#[derive(Clone, Copy, Debug, PartialEq, Eq, Structural)]
pub enum NodeCommand {
    StopAll,
    Start { node: u32, rate: u32, looping: bool },
    SetRate { node: u32, rate: u32 },
}

/// A command named a clip that the table does not bind.
#[derive(Clone, Copy, Debug, PartialEq, Eq, Structural)]
pub enum BindingError {
    MissingClip(Clip),
}

impl Clip {
    /// The name of the clip in the character's animation set.
    pub open spec fn spec_name(self) -> Seq<char> {
        match self {
            Clip::Static => "static"@,
            Clip::Idle => "idle"@,
            Clip::Walk => "walk"@,
            Clip::Fall => "fall"@,
            Clip::Jump => "jump"@,
            Clip::Crouch => "crouch"@,
        }
    }

    /// The name of the clip in the character's animation set.
    pub fn name(&self) -> (r: &'static str)
        ensures
            r@ == self.spec_name(),
    {
        match self {
            Clip::Static => "static",
            Clip::Idle => "idle",
            Clip::Walk => "walk",
            Clip::Fall => "fall",
            Clip::Jump => "jump",
            Clip::Crouch => "crouch",
        }
    }
}

/// The clip a command names, if any.
pub open spec fn command_clip(command: PlaybackCommand) -> Option<Clip> {
    match command {
        PlaybackCommand::StopAll => None,
        PlaybackCommand::Start { clip, .. } => Some(clip),
        PlaybackCommand::SetRate { clip, .. } => Some(clip),
    }
}

impl AnimationBinding {
    /// No name is bound twice.
    pub open spec fn wf(&self) -> bool {
        forall|i: int, j: int|
            0 <= i < j < self.entries@.len() ==> self.entries@[i].name@ != self.entries@[j].name@
    }

    /// `name` is bound.
    pub open spec fn has(&self, name: Seq<char>) -> bool {
        exists|i: int| 0 <= i < self.entries@.len() && self.entries@[i].name@ == name
    }

    /// `name` is bound to `node`.
    pub open spec fn binds(&self, name: Seq<char>, node: u32) -> bool {
        exists|i: int|
            0 <= i < self.entries@.len() && self.entries@[i].name@ == name
                && self.entries@[i].node == node
    }

    /// An empty table.
    pub fn new() -> (r: AnimationBinding)
        ensures
            r.wf(),
            forall|name: Seq<char>| !r.has(name),
    {
        AnimationBinding { entries: Vec::new() }
    }

    /// Binds `name` to `node`, replacing what it was bound to; other names
    /// keep their nodes.
    pub fn insert(&mut self, name: String, node: u32)
        requires
            old(self).wf(),
        ensures
            final(self).wf(),
            final(self).binds(name@, node),
            forall|other: Seq<char>|
                other != name@ ==> (final(self).has(other) == old(self).has(other)),
            forall|other: Seq<char>, n: u32|
                other != name@ ==> (final(self).binds(other, n) == old(self).binds(other, n)),
    {
        let len = self.entries.len();
        let mut i: usize = 0;
        while i < len
            invariant
                len == self.entries.len(),
                self.entries@ == old(self).entries@,
                old(self).wf(),
                0 <= i <= len,
                forall|j: int| 0 <= j < i ==> self.entries@[j].name@ != name@,
            decreases len - i,
        {
            if self.entries[i].name == name {
                let ghost before = self.entries@;
                let entry = BindingEntry { name, node };
                self.entries.set(i, entry);
                assert(self.entries@[i as int].name@ == name@);
                assert(before[i as int].name@ == name@);
                assert forall|a: int, b: int|
                    0 <= a < b < self.entries@.len() implies self.entries@[a].name@
                    != self.entries@[b].name@ by {
                    assert(before[a].name@ != before[b].name@);
                    if a != i && b != i {
                        assert(self.entries@[a] == before[a]);
                        assert(self.entries@[b] == before[b]);
                    } else if a == i {
                        assert(self.entries@[b] == before[b]);
                    } else {
                        assert(self.entries@[a] == before[a]);
                    }
                }
                assert forall|other: Seq<char>| other != name@ implies (self.has(other)
                    == old(self).has(other)) by {
                    if old(self).has(other) {
                        let k = choose|k: int|
                            0 <= k < before.len() && before[k].name@ == other;
                        assert(k != i);
                        assert(self.entries@[k].name@ == other);
                    }
                    if self.has(other) {
                        let k = choose|k: int|
                            0 <= k < self.entries@.len() && self.entries@[k].name@ == other;
                        assert(k != i);
                        assert(before[k].name@ == other);
                    }
                }
                assert forall|other: Seq<char>, n: u32| other != name@ implies (self.binds(
                    other,
                    n,
                ) == old(self).binds(other, n)) by {
                    if old(self).binds(other, n) {
                        let k = choose|k: int|
                            0 <= k < before.len() && before[k].name@ == other && before[k].node
                                == n;
                        assert(k != i);
                        assert(self.entries@[k] == before[k]);
                    }
                    if self.binds(other, n) {
                        let k = choose|k: int|
                            0 <= k < self.entries@.len() && self.entries@[k].name@ == other
                                && self.entries@[k].node == n;
                        assert(k != i);
                    }
                }
                return;
            }
            i = i + 1;
        }
        let ghost before = self.entries@;
        self.entries.push(BindingEntry { name, node });
        assert(self.entries@[len as int].name@ == name@);
        assert forall|other: Seq<char>| other != name@ implies (self.has(other) == old(self).has(
            other,
        )) by {
            if old(self).has(other) {
                let k = choose|k: int| 0 <= k < before.len() && before[k].name@ == other;
                assert(self.entries@[k] == before[k]);
            }
        }
        assert forall|other: Seq<char>, n: u32| other != name@ implies (self.binds(other, n)
            == old(self).binds(other, n)) by {
            if old(self).binds(other, n) {
                let k = choose|k: int|
                    0 <= k < before.len() && before[k].name@ == other && before[k].node == n;
                assert(self.entries@[k] == before[k]);
            }
        }
    }

    /// The table of a loaded animation set: each name bound to the node of
    /// its last occurrence in `clips`, and no other name bound.
    pub fn from_clips(clips: Vec<BindingEntry>) -> (r: AnimationBinding)
        ensures
            r.wf(),
            forall|name: Seq<char>|
                r.has(name) <==> exists|i: int| 0 <= i < clips@.len() && clips@[i].name@ == name,
            forall|i: int|
                0 <= i < clips@.len() && (forall|j: int|
                    i < j < clips@.len() ==> clips@[j].name@ != clips@[i].name@) ==> r.binds(
                    #[trigger] clips@[i].name@,
                    clips@[i].node,
                ),
    {
        let mut binding = AnimationBinding::new();
        let len = clips.len();
        let mut i: usize = 0;
        while i < len
            invariant
                len == clips@.len(),
                0 <= i <= len,
                binding.wf(),
                forall|name: Seq<char>|
                    binding.has(name) <==> exists|j: int| 0 <= j < i && clips@[j].name@ == name,
                forall|j: int|
                    0 <= j < i && (forall|k: int| j < k < i ==> clips@[k].name@ != clips@[j].name@)
                        ==> binding.binds(#[trigger] clips@[j].name@, clips@[j].node),
            decreases len - i,
        {
            let entry = &clips[i];
            let ghost before = binding;
            binding.insert(entry.name.clone(), entry.node);
            assert forall|name: Seq<char>|
                binding.has(name) <==> exists|j: int|
                    0 <= j < i + 1 && clips@[j].name@ == name by {
                if name == clips@[i as int].name@ {
                    assert(binding.binds(name, clips@[i as int].node));
                } else {
                    if binding.has(name) {
                        assert(before.has(name));
                    }
                }
            }
            i = i + 1;
        }
        binding
    }

    /// The node bound to `name`, or `None` where the name is not bound.
    pub fn lookup(&self, name: &str) -> (r: Option<u32>)
        requires
            self.wf(),
        ensures
            r is None <==> !self.has(name@),
            r matches Some(n) ==> self.binds(name@, n) && forall|m: u32|
                self.binds(name@, m) ==> m == n,
    {
        let wanted: String = name.to_owned();
        let len = self.entries.len();
        let mut i: usize = 0;
        while i < len
            invariant
                len == self.entries.len(),
                self.wf(),
                wanted@ == name@,
                0 <= i <= len,
                forall|j: int| 0 <= j < i ==> self.entries@[j].name@ != name@,
            decreases len - i,
        {
            if self.entries[i].name == wanted {
                let node = self.entries[i].node;
                assert(self.binds(name@, node));
                assert forall|m: u32| self.binds(name@, m) implies m == node by {
                    binding_is_functional(*self, name@, m, node);
                }
                return Some(node);
            }
            i = i + 1;
        }
        None
    }
}

/// `out` is `command` with its clip replaced by the node bound to it.
pub open spec fn resolves(binding: AnimationBinding, command: PlaybackCommand, out: NodeCommand) -> bool {
    match (command, out) {
        (PlaybackCommand::StopAll, NodeCommand::StopAll) => true,
        (
            PlaybackCommand::Start { clip, rate, looping },
            NodeCommand::Start { node, rate: out_rate, looping: out_looping },
        ) => binding.binds(clip.spec_name(), node) && rate == out_rate && looping == out_looping,
        (PlaybackCommand::SetRate { clip, rate }, NodeCommand::SetRate { node, rate: out_rate }) => {
            binding.binds(clip.spec_name(), node) && rate == out_rate
        },
        _ => false,
    }
}

/// Every clip that the commands name is bound.
pub open spec fn all_bound(binding: AnimationBinding, commands: Seq<PlaybackCommand>) -> bool {
    forall|i: int|
        0 <= i < commands.len() ==> (command_clip(#[trigger] commands[i]) matches Some(c) ==> binding.has(
            c.spec_name(),
        ))
}

/// A name is bound to one node at most.
pub proof fn binding_is_functional(binding: AnimationBinding, name: Seq<char>, a: u32, b: u32)
    requires
        binding.wf(),
        binding.binds(name, a),
        binding.binds(name, b),
    ensures
        a == b,
{
    let i = choose|i: int|
        0 <= i < binding.entries@.len() && binding.entries@[i].name@ == name
            && binding.entries@[i].node == a;
    let j = choose|j: int|
        0 <= j < binding.entries@.len() && binding.entries@[j].name@ == name
            && binding.entries@[j].node == b;
    if i < j {
        assert(binding.entries@[i].name@ != binding.entries@[j].name@);
    } else if j < i {
        assert(binding.entries@[j].name@ != binding.entries@[i].name@);
    }
}

/// Addresses the commands to graph nodes. Where a command names a clip that
/// the table does not bind, nothing is resolved and that clip is reported.
pub fn resolve_commands(binding: &AnimationBinding, commands: &Vec<PlaybackCommand>) -> (r: Result<
    Vec<NodeCommand>,
    BindingError,
>)
    requires
        binding.wf(),
    ensures
        r is Ok <==> all_bound(*binding, commands@),
        r matches Ok(out) ==> out@.len() == commands@.len() && forall|i: int|
            0 <= i < commands@.len() ==> resolves(*binding, commands@[i], out@[i]),
        r matches Err(BindingError::MissingClip(c)) ==> exists|i: int|
            0 <= i < commands@.len() && command_clip(commands@[i]) == Some(c) && !binding.has(
                c.spec_name(),
            ),
{
    let mut out: Vec<NodeCommand> = Vec::new();
    let len = commands.len();
    let mut i: usize = 0;
    while i < len
        invariant
            binding.wf(),
            len == commands@.len(),
            0 <= i <= len,
            out@.len() == i,
            forall|j: int| 0 <= j < i ==> resolves(*binding, commands@[j], out@[j]),
            forall|j: int|
                0 <= j < i ==> (command_clip(#[trigger] commands@[j]) matches Some(c) ==> binding.has(
                    c.spec_name(),
                )),
        decreases len - i,
    {
        let command = commands[i];
        let resolved = match command {
            PlaybackCommand::StopAll => NodeCommand::StopAll,
            PlaybackCommand::Start { clip, rate, looping } => match binding.lookup(clip.name()) {
                Some(node) => NodeCommand::Start { node, rate, looping },
                None => {
                    return Err(BindingError::MissingClip(clip));
                },
            },
            PlaybackCommand::SetRate { clip, rate } => match binding.lookup(clip.name()) {
                Some(node) => NodeCommand::SetRate { node, rate },
                None => {
                    return Err(BindingError::MissingClip(clip));
                },
            },
        };
        out.push(resolved);
        i = i + 1;
    }
    Ok(out)
}

} // verus!
