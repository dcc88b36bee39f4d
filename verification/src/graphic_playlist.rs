//! The playlist view: an ordered list of track labels shown 22 pixels per
//! row, with a scroll window over them, a selected row, and a hover row.
//!
//! The widget owns its geometry as plain values; a renderer asks `draw` for
//! the visible slice of rows and their states. Pointer coordinates map to
//! row indices by truncating division, so hit-test boundaries are exact.

use vstd::prelude::*;
use crate::geometry::{box_contains, inside_box, Vector2};
use crate::labels::{add_label, add_labels, basename, contains_label, display_name, label_views};

verus! {

/// Rows are laid out at 22-pixel steps from the widget's top, so this cap
/// keeps every row offset within the `i32` pixel space.
pub const MAX_LABELS: usize = 0x0400_0000;

/// How a row is painted: its place in the selection and hover state.
#[derive(Clone, Copy, PartialEq, Eq, Structural, Debug)]
pub enum RowState {
    Plain,
    Selected,
    Hovered,
}

/// One visible row, ready for a renderer: its display label, the vertical
/// pixel where it starts, and its paint state.
#[derive(Debug)]
pub struct DrawRow {
    pub label: String,
    pub y: i64,
    pub state: RowState,
}

/// How many whole rows a viewport of height `h` shows.
pub open spec fn visible_fit(h: int) -> int {
    if h >= 1 {
        (h - 1) / 22
    } else {
        0
    }
}

/// The number of rows drawn: the rows that fit, but never more than exist.
pub open spec fn to_draw_spec(len: int, h: int) -> int {
    if len <= visible_fit(h) {
        len
    } else {
        visible_fit(h)
    }
}

/// Whether a viewport of height `h` shows fewer rows than the list holds,
/// which is when scrolling is meaningful.
pub open spec fn content_overflows(len: int, h: int) -> bool {
    len > visible_fit(h)
}

/// Division by the row height truncating toward zero, as pointer
/// coordinates are mapped to row indices.
pub open spec fn trunc_div_22(a: int) -> int {
    if a >= 0 {
        a / 22
    } else {
        -((-a) / 22)
    }
}

pub struct GraphicPlayList {
    pub musics: Vec<String>,
    pub texts: Vec<String>,
    pub to_draw: usize,
    pub current: usize,
    pub hover_element: Option<usize>,
    pub add_to_view: isize,
    pub position: Vector2,
    pub size: Vector2,
    pub need_to_draw: bool,
    pub has_mouse: bool,
    pub name: String,
}

impl GraphicPlayList {
    /// The track labels, in display order.
    pub open spec fn labels(self) -> Seq<Seq<char>> {
        label_views(self.musics@)
    }

    /// Well-formedness: the display names mirror the labels, the selected
    /// row and the scroll offset stay inside the list whenever it is
    /// non-empty, and the drawn-row count matches the geometry.
    pub open spec fn inv(self) -> bool {
        &&& self.musics@.len() <= MAX_LABELS
        &&& self.texts@.len() == self.musics@.len()
        &&& (forall|i: int|
            0 <= i < self.musics@.len() ==> self.texts@[i]@ == basename(self.musics@[i]@))
        &&& (if self.musics@.len() == 0 {
            self.current == 0 && self.add_to_view == 0 && self.hover_element is None
        } else {
            self.current < self.musics@.len() && 0 <= self.add_to_view <= self.musics@.len() - 1
        })
        &&& (self.hover_element matches Some(h) ==> h < self.musics@.len())
        &&& (self.hover_element is Some ==> self.has_mouse)
        &&& self.to_draw == to_draw_spec(self.musics@.len() as int, self.size.y as int)
    }

    /// The row index a pointer at vertical position `y` lands on.
    pub open spec fn row_at(self, y: int) -> int {
        self.add_to_view + trunc_div_22(y - self.position.y)
    }

    /// A scroll offset is accepted when it changes something, stays within
    /// `[0, len - 1]`, and the content overflows the viewport.
    pub open spec fn scroll_ok(self, off: int) -> bool {
        &&& off != self.add_to_view
        &&& 0 <= off <= self.musics@.len() - 1
        &&& content_overflows(self.musics@.len() as int, self.size.y as int)
    }

    /// What `set_to_add` does: scroll to `off` when accepted, else nothing.
    pub open spec fn set_to_add_spec(self, off: int) -> GraphicPlayList {
        if self.scroll_ok(off) {
            GraphicPlayList { add_to_view: off as isize, need_to_draw: true, ..self }
        } else {
            self
        }
    }

    /// What selecting row `c` does: nothing on an empty list or when `c` is
    /// already current; otherwise the selection moves, and a programmatic
    /// advance (not a click) on an overflowing list auto-scrolls to keep
    /// the new current row in sight, two rows from the bottom.
    pub open spec fn select_spec(self, c: int, by_click: bool) -> GraphicPlayList {
        if self.musics@.len() > 0 && c != self.current {
            let s1 = GraphicPlayList { current: c as usize, need_to_draw: true, ..self };
            if !by_click && content_overflows(self.musics@.len() as int, self.size.y as int) {
                if c + 2 >= self.to_draw + self.add_to_view {
                    s1.set_to_add_spec(c + 2 - self.to_draw)
                } else if c < self.add_to_view {
                    s1.set_to_add_spec(c)
                } else {
                    s1
                }
            } else {
                s1
            }
        } else {
            self
        }
    }

    /// The row a pointer at height `y` would put under hover: in range and
    /// not the current row, which gets no self-hover highlight.
    pub open spec fn hover_target(self, y: int) -> Option<usize> {
        let r = self.row_at(y);
        if 0 <= r < self.musics@.len() && r != self.current {
            Some(r as usize)
        } else {
            None
        }
    }

    /// What a click at `pos` does: ignored above the viewport top; below
    /// it the widget is marked dirty, and a hit row clears the hover and
    /// becomes current without auto-scrolling.
    pub open spec fn clicked_spec(self, pos: Vector2) -> GraphicPlayList {
        if pos.y < self.position.y {
            self
        } else {
            let r = self.row_at(pos.y as int);
            if 0 <= r < self.musics@.len() {
                (GraphicPlayList { hover_element: None, need_to_draw: true, ..self }).select_spec(
                    r,
                    true,
                )
            } else {
                GraphicPlayList { need_to_draw: true, ..self }
            }
        }
    }

    /// The paint state of row `k`: the current row is selected (selection
    /// outranks hover), the hovered row is hovered, the rest are plain.
    pub open spec fn row_state(self, k: int) -> RowState {
        if k == self.current {
            RowState::Selected
        } else {
            match self.hover_element {
                Some(h) => if h == k {
                    RowState::Hovered
                } else {
                    RowState::Plain
                },
                None => RowState::Plain,
            }
        }
    }

    /// How many rows `draw` hands out: the visible slice, clipped to the
    /// end of the list.
    pub open spec fn draw_count(self) -> int {
        let last = if self.musics@.len() <= self.add_to_view + self.to_draw {
            self.musics@.len() as int
        } else {
            self.add_to_view + self.to_draw
        };
        if last >= self.add_to_view {
            last - self.add_to_view
        } else {
            0
        }
    }

    /// An empty playlist view, dirty so the first frame draws it.
    pub fn new_init(size: Vector2, position: Vector2) -> (r: GraphicPlayList)
        ensures
            r.musics@.len() == 0,
            r.texts@.len() == 0,
            r.to_draw == 0,
            r.current == 0,
            (r.hover_element is None),
            r.add_to_view == 0,
            r.position == position,
            r.size == size,
            r.need_to_draw == true,
            r.has_mouse == false,
            r.name@ == Seq::<char>::empty(),
            r.inv(),
    {
        GraphicPlayList {
            musics: Vec::new(),
            texts: Vec::new(),
            to_draw: 0,
            current: 0,
            hover_element: None,
            add_to_view: 0,
            position,
            size,
            need_to_draw: true,
            has_mouse: false,
            name: String::new(),
        }
    }

    /// Recomputes how many rows the current viewport shows.
    fn recompute_to_draw(&mut self)
        requires
            old(self).musics@.len() <= MAX_LABELS,
        ensures
            *final (self) == (GraphicPlayList {
                to_draw: to_draw_spec(
                    old(self).musics@.len() as int,
                    old(self).size.y as int,
                ) as usize,
                ..*old(self)
            }),
            final (self).to_draw == to_draw_spec(
                old(self).musics@.len() as int,
                old(self).size.y as int,
            ),
    {
        let len: usize = self.musics.len();
        let h: i32 = self.size.y;
        let fit: usize = if h >= 1 {
            (((h - 1) as u32) / 22) as usize
        } else {
            0
        };
        self.to_draw = if len <= fit {
            len
        } else {
            fit
        };
    }

    /// Appends a track unless an equal label is already present; a new row
    /// gets its display name and the row count is refreshed.
    pub fn add_music(&mut self, music: &String)
        requires
            old(self).inv(),
            old(self).musics@.len() < MAX_LABELS || old(self).labels().contains(music@),
        ensures
            final (self).inv(),
            final (self).labels() == add_label(old(self).labels(), music@),
            old(self).labels().contains(music@) ==> *final (self) == *old(self),
            !old(self).labels().contains(music@) ==> final (self).musics@ == old(
                self,
            ).musics@.push(*music) && final (self).need_to_draw == true,
            final (self).current == old(self).current,
            final (self).hover_element == old(self).hover_element,
            final (self).add_to_view == old(self).add_to_view,
            final (self).position == old(self).position,
            final (self).size == old(self).size,
            final (self).name == old(self).name,
            final (self).has_mouse == old(self).has_mouse,
    {
        let ghost orig: Seq<Seq<char>> = self.labels();
        if !contains_label(&self.musics, music) {
            let ghost m: Seq<char> = music@;
            self.musics.push(music.clone());
            self.texts.push(display_name(music));
            self.recompute_to_draw();
            self.need_to_draw = true;
            assert(self.labels() =~= orig.push(m));
        }
    }

    /// Appends each given track in order, skipping labels already present.
    pub fn add_musics(&mut self, musics: &Vec<String>)
        requires
            old(self).inv(),
            old(self).musics@.len() + musics@.len() <= MAX_LABELS,
        ensures
            final (self).inv(),
            final (self).labels() == add_labels(old(self).labels(), label_views(musics@)),
            final (self).current == old(self).current,
            final (self).hover_element == old(self).hover_element,
            final (self).add_to_view == old(self).add_to_view,
            final (self).position == old(self).position,
            final (self).size == old(self).size,
            final (self).name == old(self).name,
            final (self).has_mouse == old(self).has_mouse,
    {
        let ghost init: GraphicPlayList = *self;
        let ghost ms: Seq<Seq<char>> = label_views(musics@);
        let mut i: usize = 0;
        proof {
            assert(ms.take(0) =~= Seq::<Seq<char>>::empty());
        }
        while i < musics.len()
            invariant
                i <= musics@.len(),
                ms == label_views(musics@),
                self.inv(),
                init.inv(),
                init.musics@.len() + musics@.len() <= MAX_LABELS,
                self.musics@.len() <= init.musics@.len() + i,
                self.labels() == add_labels(init.labels(), ms.take(i as int)),
                self.current == init.current,
                self.hover_element == init.hover_element,
                self.add_to_view == init.add_to_view,
                self.position == init.position,
                self.size == init.size,
                self.name == init.name,
                self.has_mouse == init.has_mouse,
            decreases musics@.len() - i,
        {
            self.add_music(&musics[i]);
            proof {
                assert(ms.take(i as int + 1) =~= ms.take(i as int).push(ms[i as int]));
                crate::labels::lemma_add_labels_snoc(init.labels(), ms.take(i as int), ms[i as int]);
            }
            i += 1;
        }
        proof {
            assert(ms.take(musics@.len() as int) =~= ms);
        }
    }

    /// Scrolls to `to_add` rows when the offset is acceptable; see
    /// `scroll_ok`.
    pub fn set_to_add(&mut self, to_add: isize)
        requires
            old(self).inv(),
        ensures
            final (self).inv(),
            *final (self) == old(self).set_to_add_spec(to_add as int),
    {
        let len: usize = self.musics.len();
        let in_range: bool = to_add >= 0 && (to_add as i64) <= (len as i64) - 1;
        let overflows: bool = self.to_draw < len;
        let accept: bool = to_add != self.add_to_view && in_range && overflows;
        if accept {
            self.add_to_view = to_add;
            self.need_to_draw = true;
        }
    }

    /// Selects row `current` as a programmatic advance, auto-scrolling to
    /// keep it in sight; see `select_spec`.
    pub fn set_current(&mut self, current: usize)
        requires
            old(self).inv(),
            current < old(self).musics@.len() || old(self).musics@.len() == 0,
        ensures
            final (self).inv(),
            *final (self) == old(self).select_spec(current as int, false),
    {
        self.set_current_intern(current, false)
    }

    /// Selects row `current`; a click never auto-scrolls.
    fn set_current_intern(&mut self, current: usize, by_click: bool)
        requires
            old(self).inv(),
            current < old(self).musics@.len() || old(self).musics@.len() == 0,
        ensures
            final (self).inv(),
            *final (self) == old(self).select_spec(current as int, by_click),
    {
        if self.musics.len() > 0 && current != self.current {
            self.current = current;
            self.need_to_draw = true;
            let len: usize = self.musics.len();
            if !by_click && self.to_draw < len {
                let cur: i64 = current as i64;
                let td: i64 = self.to_draw as i64;
                let atv: i64 = self.add_to_view as i64;
                if cur + 2 >= td + atv {
                    self.set_to_add((cur + 2 - td) as isize);
                } else if cur < atv {
                    self.set_to_add(current as isize);
                }
            }
        }
    }

    /// The selected row.
    pub fn get_current(&self) -> (r: usize)
        ensures
            r == self.current,
    {
        self.current
    }

    /// The scroll offset: the index of the row at the viewport's top.
    pub fn get_add_to_view(&self) -> (r: isize)
        ensures
            r == self.add_to_view,
    {
        self.add_to_view
    }

    /// Drops row `pos`. The list must keep at least one row; the selection
    /// follows its track where possible and is clamped into range, the
    /// hover is cleared, and the scroll offset is clamped into range.
    pub fn remove_music(&mut self, pos: usize)
        requires
            old(self).inv(),
            pos < old(self).musics@.len(),
            old(self).musics@.len() >= 2,
        ensures
            final (self).inv(),
            final (self).musics@ == old(self).musics@.remove(pos as int),
            final (self).texts@ == old(self).texts@.remove(pos as int),
            final (self).current == (if old(self).current > pos {
                old(self).current - 1
            } else if old(self).current >= old(self).musics@.len() - 1 {
                old(self).musics@.len() - 2
            } else {
                old(self).current as int
            }),
            (final (self).hover_element is None),
            final (self).add_to_view == (if old(self).add_to_view <= old(self).musics@.len() - 2 {
                old(self).add_to_view as int
            } else {
                old(self).musics@.len() - 2
            }),
            final (self).need_to_draw == true,
            final (self).position == old(self).position,
            final (self).size == old(self).size,
            final (self).name == old(self).name,
            final (self).has_mouse == old(self).has_mouse,
    {
        self.musics.remove(pos);
        self.texts.remove(pos);
        let len: usize = self.musics.len();
        if self.current > pos {
            self.current = self.current - 1;
        } else if self.current >= len {
            self.current = len - 1;
        }
        if (self.add_to_view as i64) > (len as i64) - 1 {
            self.add_to_view = (len - 1) as isize;
        }
        self.hover_element = None;
        self.recompute_to_draw();
        self.need_to_draw = true;
    }

    /// Moves the widget; the rows move with it.
    pub fn set_position(&mut self, position: Vector2)
        requires
            old(self).inv(),
        ensures
            final (self).inv(),
            *final (self) == (GraphicPlayList { position, need_to_draw: true, ..*old(self) }),
    {
        self.position = position;
        self.recompute_to_draw();
        self.need_to_draw = true;
    }

    /// The widget's top-left corner.
    pub fn get_position(&self) -> (r: Vector2)
        ensures
            r == self.position,
    {
        self.position
    }

    /// Resizes the widget and refreshes how many rows are shown.
    pub fn set_size(&mut self, size: Vector2)
        requires
            old(self).inv(),
        ensures
            final (self).inv(),
            final (self).size == size,
            final (self).to_draw == to_draw_spec(old(self).musics@.len() as int, size.y as int),
            final (self).need_to_draw == true,
            final (self).musics@ == old(self).musics@,
            final (self).texts@ == old(self).texts@,
            final (self).current == old(self).current,
            final (self).hover_element == old(self).hover_element,
            final (self).add_to_view == old(self).add_to_view,
            final (self).position == old(self).position,
            final (self).name == old(self).name,
            final (self).has_mouse == old(self).has_mouse,
    {
        self.size = size;
        self.recompute_to_draw();
        self.need_to_draw = true;
    }

    /// The widget's footprint.
    pub fn get_size(&self) -> (r: Vector2)
        ensures
            r == self.size,
    {
        self.size
    }

    /// The smallest footprint the widget accepts.
    pub fn get_min_size(&self) -> (r: Vector2)
        ensures
            r == (Vector2 { x: 50, y: 50 }),
    {
        Vector2 { x: 50, y: 50 }
    }

    /// The widget grows without bound.
    pub fn get_max_size(&self) -> (r: Option<Vector2>)
        ensures
            (r is None),
    {
        None
    }

    /// Maps the pointer's row under `row_at`.
    fn row_index(&self, y: i32) -> (r: i64)
        requires
            self.inv(),
        ensures
            r == self.row_at(y as int),
    {
        let rel: i64 = (y as i64) - (self.position.y as i64);
        let q: i64 = if rel >= 0 {
            ((rel as u64) / 22) as i64
        } else {
            -((((-rel) as u64) / 22) as i64)
        };
        (self.add_to_view as i64) + q
    }

    /// Tracks the pointer: the row under it becomes the hover target, the
    /// current row and out-of-range positions clear it.
    pub fn cursor_moved(&mut self, pos: Vector2)
        requires
            old(self).inv(),
        ensures
            final (self).inv(),
            *final (self) == (GraphicPlayList {
                has_mouse: true,
                need_to_draw: true,
                hover_element: old(self).hover_target(pos.y as int),
                ..*old(self)
            }),
    {
        self.need_to_draw = true;
        self.has_mouse = true;
        let row: i64 = self.row_index(pos.y);
        let len: usize = self.musics.len();
        if 0 <= row && row < (len as i64) && row != (self.current as i64) {
            self.hover_element = Some(row as usize);
        } else {
            self.hover_element = None;
        }
    }

    /// A click at or below the viewport top selects the row it lands on,
    /// clearing any hover highlight; it never scrolls.
    pub fn clicked(&mut self, pos: Vector2)
        requires
            old(self).inv(),
        ensures
            final (self).inv(),
            *final (self) == old(self).clicked_spec(pos),
    {
        if pos.y >= self.position.y {
            let row: i64 = self.row_index(pos.y);
            self.need_to_draw = true;
            let len: usize = self.musics.len();
            if 0 <= row && row < (len as i64) {
                self.hover_element = None;
                self.set_current_intern(row as usize, true);
            }
        }
    }

    /// Forgets the hover when the pointer leaves the widget; idempotent.
    pub fn mouse_leave(&mut self)
        requires
            old(self).inv(),
        ensures
            final (self).inv(),
            (final (self).hover_element is None),
            *final (self) == (if old(self).has_mouse {
                GraphicPlayList {
                    has_mouse: false,
                    hover_element: None,
                    need_to_draw: old(self).need_to_draw || old(self).hover_element is Some,
                    ..*old(self)
                }
            } else {
                *old(self)
            }),
    {
        if self.has_mouse {
            match self.hover_element {
                Some(_) => {
                    self.hover_element = None;
                    self.need_to_draw = true;
                },
                None => {},
            }
            self.has_mouse = false;
        }
    }

    /// Whether `pos` lies on the widget's footprint.
    pub fn is_inside(&self, pos: Vector2) -> (r: bool)
        ensures
            r == inside_box(self.position, self.size, pos),
    {
        box_contains(self.position, self.size, pos)
    }

    /// Hands the renderer the visible slice of rows, top to bottom, each
    /// with its display label, vertical pixel and paint state, and clears
    /// the dirty flag: it is read and cleared exactly once per frame.
    pub fn draw(&mut self) -> (rows: Vec<DrawRow>)
        requires
            old(self).inv(),
        ensures
            final (self).inv(),
            *final (self) == (GraphicPlayList { need_to_draw: false, ..*old(self) }),
            rows@.len() == old(self).draw_count(),
            forall|i: int|
                0 <= i < rows@.len() ==> rows@[i].label@ == old(self).texts@[old(
                    self,
                ).add_to_view + i]@ && rows@[i].y == old(self).position.y + 22 * i && rows@[i].state
                    == old(self).row_state(old(self).add_to_view + i),
    {
        let mut rows: Vec<DrawRow> = Vec::new();
        let len: usize = self.musics.len();
        let add: usize = self.add_to_view as usize;
        let stop: usize = if len <= add + self.to_draw {
            len
        } else {
            add + self.to_draw
        };
        let mut k: usize = add;
        while k < stop
            invariant
                self.inv(),
                add == self.add_to_view,
                len == self.musics@.len(),
                stop == (if len <= add + self.to_draw {
                    len as int
                } else {
                    add + self.to_draw
                }),
                add <= k <= stop,
                stop <= len,
                rows@.len() == k - add,
                forall|i: int|
                    0 <= i < rows@.len() ==> rows@[i].label@ == self.texts@[add + i]@
                        && rows@[i].y == self.position.y + 22 * i && rows@[i].state
                        == self.row_state(add + i),
            decreases stop - k,
        {
            let state: RowState = if k == self.current {
                RowState::Selected
            } else {
                match self.hover_element {
                    Some(h) => if h == k {
                        RowState::Hovered
                    } else {
                        RowState::Plain
                    },
                    None => RowState::Plain,
                }
            };
            let y: i64 = (self.position.y as i64) + 22 * ((k - add) as i64);
            rows.push(DrawRow { label: self.texts[k].clone(), y, state });
            k += 1;
        }
        self.need_to_draw = false;
        rows
    }

    /// Names the element for the layout that owns it.
    pub fn set_element_name(&mut self, name: &String)
        ensures
            *final (self) == (GraphicPlayList { name: *name, ..*old(self) }),
    {
        self.name = name.clone();
    }

    /// The element's name.
    pub fn get_element_name(&self) -> (r: &String)
        ensures
            r@ == self.name@,
    {
        &self.name
    }
}

/// A non-empty playlist view always has its selected row inside the list:
/// every operation keeps `inv`, and `inv` pins the selection into range.
pub proof fn lemma_current_in_range(s: GraphicPlayList)
    requires
        s.inv(),
        s.musics@.len() > 0,
    ensures
        0 <= s.current < s.musics@.len(),
{
}

} // verus!
