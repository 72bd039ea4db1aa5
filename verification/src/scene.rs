//! What a scene graph contributes to a loaded model: the names that nodes
//! accumulate along their path, their layers, and the frame-by-frame
//! decisions of a voxel animation.

use vstd::prelude::*;

verus! {

/// A component specifying which layer an entity belongs to, with an
/// optional name.
#[derive(Clone, Debug)]
pub struct VoxelLayer {
    /// The identifier for the layer, an index in the range 0 through 7.
    pub id: u32,
    /// An optional name for the layer.
    pub name: Option<String>,
}

/// Marks an entity as the frame of an animation with the given index.
#[derive(Clone, Copy, PartialEq, Eq, Debug, Structural)]
pub struct VoxelAnimationFrame(pub usize);

/// The path of a node below a named parent: the two names with a slash
/// between them.
pub open spec fn joined_names(parent: Seq<char>, node: Seq<char>) -> Seq<char> {
    parent + seq!['/'] + node
}

/// Formats `parent`, a slash and `node` into one string with std's
/// `format!`.
#[verifier::external_body]
fn join_names(parent: &String, node: &String) -> (joined: String)
    ensures
        joined@ == joined_names(parent@, node@),
{
    format!("{}/{}", parent, node)
}

/// The name that a node hands down to its children and the name it bears
/// itself, as views: a named node below a named parent bears the path
/// `parent/node` and hands it down; below no named parent it bears and
/// hands down its own name; an unnamed node bears no name and hands its
/// parent's name down unchanged.
pub open spec fn accumulated_names(parent: Option<Seq<char>>, node: Option<Seq<char>>) -> (
    Option<Seq<char>>,
    Option<Seq<char>>,
) {
    match (parent, node) {
        (None, None) => (None, None),
        (None, Some(node)) => (Some(node), Some(node)),
        (Some(parent), None) => (Some(parent), None),
        (Some(parent), Some(node)) => (
            Some(joined_names(parent, node)),
            Some(joined_names(parent, node)),
        ),
    }
}

/// The view of an optional name.
pub open spec fn name_view(name: Option<String>) -> Option<Seq<char>> {
    match name {
        Some(name) => Some(name@),
        None => None,
    }
}

/// The view of an optional borrowed name.
pub open spec fn name_ref_view(name: Option<&String>) -> Option<Seq<char>> {
    match name {
        Some(name) => Some(name@),
        None => None,
    }
}

/// Returns the name accumulated along the path down to a node, which its
/// children build on, and the node's own full name.
pub fn get_accumulated_and_node_name(parent_name: Option<&String>, node_name: Option<&String>) -> (names:
    (Option<String>, Option<String>))
    ensures
        (name_view(names.0), name_view(names.1)) == accumulated_names(
            name_ref_view(parent_name),
            name_ref_view(node_name),
        ),
{
    match (parent_name, node_name) {
        (None, None) => (None, None),
        (None, Some(node_name)) => (Some(node_name.clone()), Some(node_name.clone())),
        (Some(parent_name), None) => (Some(parent_name.clone()), None),
        (Some(parent_name), Some(node_name)) => {
            let accumulated = join_names(parent_name, node_name);
            (Some(accumulated.clone()), Some(accumulated))
        },
    }
}

/// Reads a scene attribute as a flag: only the string `1` counts as set.
pub fn parse_bool(value: Option<String>) -> (flag: bool)
    ensures
        flag == (name_view(value) == Some(seq!['1'])),
{
    proof {
        reveal_strlit("1");
    }
    match value {
        Some(text) => {
            let one = "1".to_owned();
            assert(one@ =~= seq!['1']);
            text == one
        },
        None => false,
    }
}

/// How often an animation plays.
#[derive(Clone, Copy, PartialEq, Eq, Debug, Structural)]
pub enum RepeatMode {
    /// Once.
    Never,
    /// The given number of times.
    Count(u32),
    /// Until stopped.
    Forever,
}

/// Where an animation stands: the frame on show and the number of times it
/// has played through.
#[derive(Clone, Copy, PartialEq, Eq, Debug, Structural)]
pub struct AnimationTimer {
    /// The position in the player's frame list of the frame on show.
    pub current_frame_index: usize,
    /// How many times the animation has reached its last frame.
    pub play_count: u32,
}

/// What a tick did to an animation.
#[derive(Clone, Copy, PartialEq, Eq, Debug, Structural)]
pub enum AnimationUpdate {
    /// The frame on show stays.
    SameFrame,
    /// The frame with the given index is to be shown.
    AdvanceFrame(usize),
    /// The animation has played for the last time.
    ReachedEnd,
}

/// Plays voxel animations: decides, tick by tick, which frame is on show.
pub struct VoxelAnimationPlayer {
    /// Frame indices, in playing order.
    pub frames: Vec<usize>,
    /// Whether the animation repeats.
    pub repeat_mode: RepeatMode,
    /// If true, playback is paused.
    pub is_paused: bool,
    /// The frame on show and the play count.
    pub timer: AnimationTimer,
}

impl VoxelAnimationPlayer {
    /// Whether the player can take a tick: the frame on show is one of its
    /// frames, and the play count can still grow.
    pub open spec fn can_advance(&self) -> bool {
        &&& self.timer.current_frame_index < self.frames@.len()
        &&& self.timer.play_count < u32::MAX
    }

    /// Whether the frame after the one on show is past the last frame.
    pub open spec fn at_last_frame(&self) -> bool {
        self.timer.current_frame_index + 1 == self.frames@.len()
    }

    /// Whether a tick on the last frame ends the animation rather than
    /// starting it over.
    pub open spec fn ends_now(&self) -> bool {
        match self.repeat_mode {
            RepeatMode::Never => true,
            RepeatMode::Count(end_count) => self.timer.play_count + 1 >= end_count,
            RepeatMode::Forever => false,
        }
    }

    /// Takes one tick. `frame_elapsed` says whether the frame on show has
    /// been up for longer than the frame rate allows.
    ///
    /// A paused player, or one whose frame has time left, stays as it is.
    /// Otherwise the next frame comes up; past the last frame the animation
    /// either ends, and the player is spent, or counts one more play and
    /// starts over at its first frame.
    pub fn did_advance_frame(&mut self, frame_elapsed: bool) -> (update: AnimationUpdate)
        requires
            old(self).can_advance(),
        ensures
            final(self).frames@ == old(self).frames@,
            final(self).repeat_mode == old(self).repeat_mode,
            final(self).is_paused == old(self).is_paused,
            old(self).is_paused || !frame_elapsed ==> update == AnimationUpdate::SameFrame
                && final(self).timer == old(self).timer,
            !old(self).is_paused && frame_elapsed && !old(self).at_last_frame() ==> {
                &&& final(self).timer.current_frame_index == old(self).timer.current_frame_index
                    + 1
                &&& final(self).timer.play_count == old(self).timer.play_count
                &&& update == AnimationUpdate::AdvanceFrame(
                    old(self).frames@[old(self).timer.current_frame_index + 1],
                )
            },
            !old(self).is_paused && frame_elapsed && old(self).at_last_frame() && old(
                self,
            ).ends_now() ==> {
                &&& update == AnimationUpdate::ReachedEnd
                &&& final(self).timer.current_frame_index == old(self).frames@.len()
                &&& final(self).timer.play_count == old(self).timer.play_count + (if old(
                    self,
                ).repeat_mode == RepeatMode::Never {
                    0int
                } else {
                    1int
                })
            },
            !old(self).is_paused && frame_elapsed && old(self).at_last_frame() && !old(
                self,
            ).ends_now() ==> {
                &&& update == AnimationUpdate::AdvanceFrame(old(self).frames@[0])
                &&& final(self).timer.current_frame_index == 0
                &&& final(self).timer.play_count == old(self).timer.play_count + 1
            },
    {
        if self.is_paused {
            return AnimationUpdate::SameFrame;
        }
        if frame_elapsed {
            let frame_count = self.frames.len();
            self.timer.current_frame_index = self.timer.current_frame_index + 1;
            if self.timer.current_frame_index == frame_count {
                match self.repeat_mode {
                    RepeatMode::Never => {
                        return AnimationUpdate::ReachedEnd;
                    },
                    RepeatMode::Count(end_count) => {
                        self.timer.play_count = self.timer.play_count + 1;
                        if self.timer.play_count >= end_count {
                            return AnimationUpdate::ReachedEnd;
                        } else {
                            self.timer.current_frame_index = 0;
                        }
                    },
                    RepeatMode::Forever => {
                        self.timer.play_count = self.timer.play_count + 1;
                        self.timer.current_frame_index = 0;
                    },
                }
            }
            return AnimationUpdate::AdvanceFrame(self.frames[self.timer.current_frame_index]);
        }
        AnimationUpdate::SameFrame
    }
}

} // verus!
