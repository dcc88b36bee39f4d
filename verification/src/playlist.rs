//! The playlist proper: an ordered list of track labels, unique by value,
//! with a cursor over the track that is playing and a repeat flag.
//!
//! The cursor stays inside the list: every method keeps `inv`, so a
//! non-empty playlist always has `actual < musics.len()`.

use vstd::prelude::*;
use crate::labels::{add_label, add_labels, contains_label, label_views};

verus! {

pub struct PlayList {
    pub musics: Vec<String>,
    pub actual: usize,
    pub repeat: bool,
}

impl PlayList {
    /// The labels of the tracks, in playback order.
    pub open spec fn labels(self) -> Seq<Seq<char>> {
        label_views(self.musics@)
    }

    /// The cursor points at a track whenever the list is non-empty, and
    /// rests at zero when it is empty.
    pub open spec fn inv(self) -> bool {
        if self.musics@.len() == 0 {
            self.actual == 0
        } else {
            self.actual < self.musics@.len()
        }
    }

    /// A copy of the track list.
    pub fn to_vec(&self) -> (r: Vec<String>)
        ensures
            r@ == self.musics@,
    {
        let mut out: Vec<String> = Vec::new();
        let mut i: usize = 0;
        while i < self.musics.len()
            invariant
                i <= self.musics@.len(),
                out@ =~= self.musics@.subrange(0, i as int),
            decreases self.musics@.len() - i,
        {
            out.push(self.musics[i].clone());
            i += 1;
        }
        assert(out@ =~= self.musics@);
        out
    }

    /// An empty playlist.
    pub fn new() -> (r: PlayList)
        ensures
            r.musics@.len() == 0,
            r.actual == 0,
            r.repeat == false,
            r.inv(),
    {
        PlayList { musics: Vec::new(), actual: 0, repeat: false }
    }

    /// A playlist holding a copy of the given tracks, cursor at the front.
    pub fn from_slice(vec: &[String]) -> (r: PlayList)
        ensures
            r.musics@ == vec@,
            r.actual == 0,
            r.repeat == false,
            r.inv(),
    {
        let mut musics: Vec<String> = Vec::new();
        let mut i: usize = 0;
        while i < vec.len()
            invariant
                i <= vec@.len(),
                musics@ =~= vec@.subrange(0, i as int),
            decreases vec@.len() - i,
        {
            musics.push(vec[i].clone());
            i += 1;
        }
        assert(musics@ =~= vec@);
        PlayList { musics, actual: 0, repeat: false }
    }

    /// Moves the cursor, clamping an out-of-range index to the last track
    /// and resting at zero on an empty list.
    pub fn set_actual(&mut self, actual: usize)
        ensures
            final (self).musics@ == old(self).musics@,
            final (self).repeat == old(self).repeat,
            final (self).actual == (if old(self).musics@.len() == 0 {
                0int
            } else if actual >= old(self).musics@.len() {
                old(self).musics@.len() - 1
            } else {
                actual as int
            }),
            final (self).inv(),
    {
        self.actual = if self.musics.len() == 0 {
            0
        } else if actual >= self.musics.len() {
            self.musics.len() - 1
        } else {
            actual
        };
    }

    /// Advances the cursor to the next track, wrapping to the front after
    /// the last one, and returns that track.
    pub fn get_next(&mut self) -> (r: String)
        requires
            old(self).musics@.len() > 0,
        ensures
            final (self).musics@ == old(self).musics@,
            final (self).repeat == old(self).repeat,
            final (self).actual == (if old(self).actual >= old(self).musics@.len() - 1 {
                0int
            } else {
                old(self).actual + 1
            }),
            r@ == old(self).musics@[final (self).actual as int]@,
            final (self).inv(),
    {
        self.actual = if self.actual >= self.musics.len() - 1 {
            0
        } else {
            self.actual + 1
        };
        self.musics[self.actual].clone()
    }

    /// Moves the cursor to the previous track, wrapping to the back before
    /// the first one, and returns that track.
    pub fn get_prev(&mut self) -> (r: String)
        requires
            old(self).musics@.len() > 0,
            old(self).inv(),
        ensures
            final (self).musics@ == old(self).musics@,
            final (self).repeat == old(self).repeat,
            final (self).actual == (if old(self).actual == 0 {
                old(self).musics@.len() - 1
            } else {
                old(self).actual - 1
            }),
            r@ == old(self).musics@[final (self).actual as int]@,
            final (self).inv(),
    {
        self.actual = if self.actual == 0 {
            self.musics.len() - 1
        } else {
            self.actual - 1
        };
        self.musics[self.actual].clone()
    }

    /// Appends the track unless an equal label is already present.
    pub fn add_music(&mut self, music: String)
        ensures
            final (self).labels() == add_label(old(self).labels(), music@),
            old(self).labels().contains(music@) ==> final (self).musics@ == old(self).musics@,
            !old(self).labels().contains(music@) ==> final (self).musics@ == old(self).musics@.push(
                music,
            ),
            final (self).actual == old(self).actual,
            final (self).repeat == old(self).repeat,
            old(self).inv() ==> final (self).inv(),
    {
        let ghost orig: Seq<Seq<char>> = self.labels();
        if !contains_label(&self.musics, &music) {
            let ghost m: Seq<char> = music@;
            self.musics.push(music);
            assert(self.labels() =~= orig.push(m));
        }
    }

    /// Appends each given track in order, skipping labels already present.
    pub fn add_musics(&mut self, musics: Vec<String>)
        ensures
            final (self).labels() == add_labels(old(self).labels(), label_views(musics@)),
            final (self).actual == old(self).actual,
            final (self).repeat == old(self).repeat,
            old(self).inv() ==> final (self).inv(),
    {
        let ghost init: PlayList = *self;
        let ghost ms: Seq<Seq<char>> = label_views(musics@);
        let mut i: usize = 0;
        proof {
            assert(ms.take(0) =~= Seq::<Seq<char>>::empty());
        }
        while i < musics.len()
            invariant
                i <= musics@.len(),
                ms == label_views(musics@),
                self.labels() == add_labels(init.labels(), ms.take(i as int)),
                self.actual == init.actual,
                self.repeat == init.repeat,
                init.inv() ==> self.inv(),
            decreases musics@.len() - i,
        {
            self.add_music(musics[i].clone());
            proof {
                assert(ms.take(i as int + 1) =~= ms.take(i as int).push(ms[i as int]));
                crate::labels::lemma_add_labels_snoc(init.labels(), ms.take(i as int), ms[i as int]);
            }
            i += 1;
        }
        proof {
            assert(ms.take(musics@.len() as int) =~= ms);
        }
    }

    /// The first track of the list.
    pub fn start(&self) -> (r: String)
        requires
            self.musics@.len() > 0,
        ensures
            r@ == self.musics@[0]@,
    {
        self.musics[0].clone()
    }

    /// Drops the track under the cursor; the cursor then points at the
    /// track that took its place, or at the new last track when it was at
    /// the back. An empty list is left alone.
    pub fn remove_current(&mut self)
        requires
            old(self).inv(),
        ensures
            final (self).repeat == old(self).repeat,
            old(self).musics@.len() == 0 ==> final (self).musics@ == old(self).musics@
                && final (self).actual == old(self).actual,
            old(self).musics@.len() > 0 ==> final (self).musics@ == old(self).musics@.remove(
                old(self).actual as int,
            ),
            old(self).musics@.len() > 0 ==> final (self).actual == (if old(self).musics@.len() - 1
                == 0 {
                0int
            } else if old(self).musics@.len() - 1 <= old(self).actual {
                old(self).musics@.len() - 2
            } else {
                old(self).actual as int
            }),
            final (self).inv(),
    {
        if self.musics.len() > 0 {
            self.musics.remove(self.actual);
            if self.musics.len() == 0 {
                self.actual = 0;
            } else if self.musics.len() <= self.actual {
                self.actual = self.musics.len() - 1;
            }
        }
    }

    /// The track under the cursor.
    pub fn get_current(&self) -> (r: String)
        requires
            self.musics@.len() > 0,
            self.inv(),
        ensures
            r@ == self.musics@[self.actual as int]@,
    {
        self.musics[self.actual].clone()
    }

    /// How many tracks the list holds.
    pub fn get_nb_musics(&self) -> (r: usize)
        ensures
            r == self.musics@.len(),
    {
        self.musics.len()
    }

    /// The cursor's position.
    pub fn get_pos(&self) -> (r: usize)
        ensures
            r == self.actual,
    {
        self.actual
    }

    /// Whether the playlist repeats once it runs out.
    pub fn get_repeat(&self) -> (r: bool)
        ensures
            r == self.repeat,
    {
        self.repeat
    }

    /// Sets the repeat flag.
    pub fn set_repeat(&mut self, repeat: bool)
        ensures
            final (self).musics@ == old(self).musics@,
            final (self).actual == old(self).actual,
            final (self).repeat == repeat,
    {
        self.repeat = repeat;
    }
}

} // verus!
