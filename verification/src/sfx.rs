//! Music timing and the sound effects that a frame asks for.
//!
//! Nothing here makes a sound. `MusicBox` says at which frames a piece of
//! music starts, and `SfxPlayer` collects the effects of one frame in the
//! order in which they were asked for.

use vstd::prelude::*;

verus! {

/// Frame at which the main loop of the music starts for the first time.
pub const TRIGGER_MUSIC_POINT: i32 = 662;

/// Number of frames after which the main loop of the music starts again.
pub const LOOP_MUSIC: i32 = 5141;

/// Number of whoosh effects to choose from.
pub const WHOOSHES: i32 = 3;

/// A piece of music.
#[derive(Clone, Copy, Debug, PartialEq, Eq, Structural)]
pub enum Music {
    /// The introduction.
    Intro,
    /// The main loop.
    Loop,
}

/// A sound effect.
#[derive(Clone, Copy, Debug, PartialEq, Eq, Structural)]
pub enum SoundEffect {
    /// The hat is thrown; the number chooses one of the whoosh effects.
    Whoosh(u8),
    /// The hat is back on the head.
    Catch,
    /// The wizard jumps.
    Jump,
    /// The wizard lands.
    Land,
    /// A slime jumps.
    SlimeJump,
    /// A slime dies.
    SlimeDeath,
    /// A snail comes out of its shell.
    SnailEmerge,
    /// A snail goes back into its shell.
    SnailRetreat,
    /// The hat bounces off a snail.
    SnailHatBounce,
    /// A snail dies.
    SnailDeath,
}

/// Counts the frames since the music began.
#[derive(Clone, Copy, Debug, PartialEq, Eq, Structural)]
pub struct MusicBox {
    pub frame: i32,
}

/// The piece of music that starts at the frame `frame`, if any.
pub open spec fn music_at(frame: int) -> Option<Music> {
    if frame == 0 {
        Some(Music::Intro)
    } else if frame >= 662 && (frame - 662) % 5141 == 0 {
        Some(Music::Loop)
    } else {
        None
    }
}

impl MusicBox {
    /// A music box at frame zero.
    pub fn new() -> (r: MusicBox)
        ensures
            r.frame == 0,
    {
        MusicBox { frame: 0 }
    }

    /// Called once per frame. Returns the piece of music to start at this
    /// frame, and counts the frame.
    pub fn after_blank(&mut self) -> (r: Option<Music>)
        requires
            0 <= old(self).frame < i32::MAX,
        ensures
            r == music_at(old(self).frame as int),
            final(self).frame == old(self).frame + 1,
    {
        let r = if self.frame == 0 {
            Some(Music::Intro)
        } else if self.frame == TRIGGER_MUSIC_POINT || (self.frame - TRIGGER_MUSIC_POINT)
            % LOOP_MUSIC == 0 {
            Some(Music::Loop)
        } else {
            None
        };
        self.frame += 1;
        r
    }
}

/// Collects the sound effects of one frame. Its view is the sequence of the
/// effects asked for so far.
#[derive(Debug)]
pub struct SfxPlayer {
    /// Frame of the music box when the player was made.
    pub frame: i32,
    /// The effects asked for, oldest first.
    pub queued: Vec<SoundEffect>,
}

impl View for SfxPlayer {
    type V = Seq<SoundEffect>;

    open spec fn view(&self) -> Seq<SoundEffect> {
        self.queued@
    }
}

impl SfxPlayer {
    /// The whoosh effect that a throw at the frame `frame` plays.
    pub open spec fn whoosh(frame: int) -> SoundEffect {
        SoundEffect::Whoosh((frame % 3) as u8)
    }

    /// A player for the frame of `music_box`, with nothing asked for.
    pub fn new(music_box: &MusicBox) -> (r: SfxPlayer)
        ensures
            r.frame == music_box.frame,
            r@ == Seq::<SoundEffect>::empty(),
    {
        SfxPlayer { frame: music_box.frame, queued: Vec::new() }
    }

    /// Asks for the sound of the hat that comes back to the head.
    pub fn catch(&mut self)
        ensures
            final(self)@ == old(self)@.push(SoundEffect::Catch),
            final(self).frame == old(self).frame,
    {
        self.queued.push(SoundEffect::Catch);
    }

    /// Asks for one of the whoosh effects, chosen by the frame.
    pub fn throw(&mut self)
        requires
            0 <= old(self).frame,
        ensures
            final(self)@ == old(self)@.push(Self::whoosh(old(self).frame as int)),
            final(self).frame == old(self).frame,
    {
        self.play_random(WHOOSHES);
    }

    /// Asks for the sound of the jumping wizard.
    pub fn jump(&mut self)
        ensures
            final(self)@ == old(self)@.push(SoundEffect::Jump),
            final(self).frame == old(self).frame,
    {
        self.queued.push(SoundEffect::Jump);
    }

    /// Asks for the sound of a jumping slime.
    pub fn slime_jump(&mut self)
        ensures
            final(self)@ == old(self)@.push(SoundEffect::SlimeJump),
            final(self).frame == old(self).frame,
    {
        self.queued.push(SoundEffect::SlimeJump);
    }

    /// Asks for the sound of a dying slime.
    pub fn slime_death(&mut self)
        ensures
            final(self)@ == old(self)@.push(SoundEffect::SlimeDeath),
            final(self).frame == old(self).frame,
    {
        self.queued.push(SoundEffect::SlimeDeath);
    }

    /// Asks for the sound of a snail that comes out of its shell.
    pub fn snail_emerge(&mut self)
        ensures
            final(self)@ == old(self)@.push(SoundEffect::SnailEmerge),
            final(self).frame == old(self).frame,
    {
        self.queued.push(SoundEffect::SnailEmerge);
    }

    /// Asks for the sound of a snail that goes back into its shell.
    pub fn snail_retreat(&mut self)
        ensures
            final(self)@ == old(self)@.push(SoundEffect::SnailRetreat),
            final(self).frame == old(self).frame,
    {
        self.queued.push(SoundEffect::SnailRetreat);
    }

    /// Asks for the sound of the hat that bounces off a snail.
    pub fn snail_hat_bounce(&mut self)
        ensures
            final(self)@ == old(self)@.push(SoundEffect::SnailHatBounce),
            final(self).frame == old(self).frame,
    {
        self.queued.push(SoundEffect::SnailHatBounce);
    }

    /// Asks for the sound of a dying snail.
    pub fn snail_death(&mut self)
        ensures
            final(self)@ == old(self)@.push(SoundEffect::SnailDeath),
            final(self).frame == old(self).frame,
    {
        self.queued.push(SoundEffect::SnailDeath);
    }

    /// Asks for the sound of the landing wizard.
    pub fn land(&mut self)
        ensures
            final(self)@ == old(self)@.push(SoundEffect::Land),
            final(self).frame == old(self).frame,
    {
        self.queued.push(SoundEffect::Land);
    }

    /// Asks for the whoosh effect whose number is the frame modulo `count`.
    fn play_random(&mut self, count: i32)
        requires
            0 <= old(self).frame,
            0 < count <= 256,
        ensures
            final(self)@ == old(self)@.push(
                SoundEffect::Whoosh((old(self).frame as int % count as int) as u8),
            ),
            final(self).frame == old(self).frame,
    {
        let choice = self.frame % count;
        self.queued.push(SoundEffect::Whoosh(choice as u8));
    }
}

} // verus!
