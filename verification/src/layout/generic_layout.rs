use crate::geometry::{Position, Rect, Size};
use std::collections::HashMap;
use std::hash::Hash;
use vstd::prelude::*;
use vstd::std_specs::hash::obeys_key_model;
use vstd::std_specs::iter::IteratorSpec;

verus! {

broadcast use vstd::std_specs::hash::group_hash_axioms;

/// Stores layout data resulting from some layout algorithm.
///
/// Widgets and labels are stored for some key that identifies the
/// widget. The label text can be stored too.
///
/// Blocks can be added too. They are expected to be rendered in
/// order of addition. `B` is the type of the block that is drawn
/// around a group of widgets.
///
/// The page-height defines the pages. The page-width is just
/// informational. The page-count is available too, but there may be
/// areas that map beyond it.
#[derive(Debug, Clone)]
pub struct GenericLayout<W, B> where W: Eq + Hash + Clone {
    /// Area of the layout.
    area: Rect,
    /// Page size.
    page_size: Size,
    /// Pages.
    page_count: usize,
    /// Widget keys.
    widgets: HashMap<W, usize>,
    /// Key of each widget index.
    rwidgets: Vec<W>,
    /// Widget areas.
    widget_areas: Vec<Rect>,
    /// Widget labels.
    labels: Vec<Option<String>>,
    /// Label areas.
    label_areas: Vec<Rect>,
    /// Container areas.
    block_areas: Vec<Rect>,
    /// Container blocks.
    blocks: Vec<Option<B>>,
}

/// Shift an area by a position.
pub open spec fn placed(area: Rect, pos: Position) -> Rect {
    Rect { x: (area.x + pos.x) as u16, y: (area.y + pos.y) as u16, ..area }
}

/// The area can be shifted by the position without leaving `u16`.
pub open spec fn can_place(area: Rect, pos: Position) -> bool {
    area.x + pos.x <= u16::MAX && area.y + pos.y <= u16::MAX
}

/// All areas can be shifted by the position.
pub open spec fn all_can_place(areas: Seq<Rect>, pos: Position) -> bool {
    forall|i: int| 0 <= i < areas.len() ==> can_place(#[trigger] areas[i], pos)
}

/// All areas shifted by the position.
pub open spec fn all_placed(areas: Seq<Rect>, pos: Position) -> Seq<Rect> {
    areas.map_values(|a: Rect| placed(a, pos))
}

/// Shift an area by a position.
fn place(area: Rect, pos: Position) -> (r: Rect)
    requires
        can_place(area, pos),
    ensures
        r == placed(area, pos),
{
    let mut area = area;
    area.x = area.x + pos.x;
    area.y = area.y + pos.y;
    area
}

/// Shift all areas by a position.
fn place_all(areas: &mut Vec<Rect>, pos: Position)
    requires
        all_can_place(old(areas)@, pos),
    ensures
        final(areas)@ == all_placed(old(areas)@, pos),
{
    let ghost a0 = areas@;
    let mut i: usize = 0;
    while i < areas.len()
        invariant
            areas@.len() == a0.len(),
            all_can_place(a0, pos),
            i <= a0.len(),
            forall|k: int| 0 <= k < i ==> #[trigger] areas@[k] == placed(a0[k], pos),
            forall|k: int| i <= k < a0.len() ==> #[trigger] areas@[k] == a0[k],
        decreases a0.len() - i,
    {
        let a = place(areas[i], pos);
        areas.set(i, a);
        i += 1;
    }
    assert(areas@ =~= all_placed(a0, pos));
}

impl<W, B> GenericLayout<W, B> where W: Eq + Hash + Clone {
    /// Area of the layout.
    pub closed spec fn area_view(&self) -> Rect {
        self.area
    }

    /// Page size.
    pub closed spec fn page_size_view(&self) -> Size {
        self.page_size
    }

    /// Number of pages.
    pub closed spec fn page_count_view(&self) -> usize {
        self.page_count
    }

    /// Map from widget key to widget index.
    pub closed spec fn key_map(&self) -> Map<W, usize> {
        self.widgets@
    }

    /// Key of each widget index.
    pub closed spec fn keys(&self) -> Seq<W> {
        self.rwidgets@
    }

    /// Widget areas.
    pub closed spec fn widget_areas(&self) -> Seq<Rect> {
        self.widget_areas@
    }

    /// Label texts.
    pub closed spec fn labels(&self) -> Seq<Option<String>> {
        self.labels@
    }

    /// Label areas.
    pub closed spec fn label_areas(&self) -> Seq<Rect> {
        self.label_areas@
    }

    /// Block areas.
    pub closed spec fn block_areas(&self) -> Seq<Rect> {
        self.block_areas@
    }

    /// Blocks.
    pub closed spec fn blocks(&self) -> Seq<Option<B>> {
        self.blocks@
    }

    /// The per-widget and per-block lists have matching lengths, and
    /// all key indexes point to a widget.
    pub open spec fn wf(&self) -> bool {
        &&& self.keys().len() == self.widget_areas().len()
        &&& self.labels().len() == self.widget_areas().len()
        &&& self.label_areas().len() == self.widget_areas().len()
        &&& self.blocks().len() == self.block_areas().len()
        &&& obeys_key_model::<W>() ==> forall|k: W| #[trigger] self.key_map().contains_key(k)
            ==> self.key_map()[k] < self.widget_areas().len()
    }

    /// Empty layout: no area, endless page size and one page.
    pub fn new() -> (r: Self)
        ensures
            r.wf(),
            r.area_view() == Rect::zero(),
            r.page_size_view() == (Size { width: u16::MAX, height: u16::MAX }),
            r.page_count_view() == 1,
            r.key_map() == Map::<W, usize>::empty(),
            r.keys() == Seq::<W>::empty(),
            r.widget_areas() == Seq::<Rect>::empty(),
            r.labels() == Seq::<Option<String>>::empty(),
            r.label_areas() == Seq::<Rect>::empty(),
            r.block_areas() == Seq::<Rect>::empty(),
            r.blocks() == Seq::<Option<B>>::empty(),
    {
        GenericLayout {
            area: Rect { x: 0, y: 0, width: 0, height: 0 },
            page_size: Size { width: u16::MAX, height: u16::MAX },
            page_count: 1,
            widgets: HashMap::new(),
            rwidgets: Vec::new(),
            widget_areas: Vec::new(),
            labels: Vec::new(),
            label_areas: Vec::new(),
            block_areas: Vec::new(),
            blocks: Vec::new(),
        }
    }

    /// Empty layout with room for the given number of widgets and
    /// blocks: no area, endless page size and no pages.
    pub fn with_capacity(num_widgets: usize, num_blocks: usize) -> (r: Self)
        ensures
            r.wf(),
            r.area_view() == Rect::zero(),
            r.page_size_view() == (Size { width: u16::MAX, height: u16::MAX }),
            r.page_count_view() == 0,
            r.key_map() == Map::<W, usize>::empty(),
            r.keys() == Seq::<W>::empty(),
            r.widget_areas() == Seq::<Rect>::empty(),
            r.labels() == Seq::<Option<String>>::empty(),
            r.label_areas() == Seq::<Rect>::empty(),
            r.block_areas() == Seq::<Rect>::empty(),
            r.blocks() == Seq::<Option<B>>::empty(),
    {
        GenericLayout {
            area: Rect { x: 0, y: 0, width: 0, height: 0 },
            page_size: Size { width: u16::MAX, height: u16::MAX },
            page_count: 0,
            widgets: HashMap::with_capacity(num_widgets),
            rwidgets: Vec::with_capacity(num_widgets),
            widget_areas: Vec::with_capacity(num_widgets),
            labels: Vec::with_capacity(num_widgets),
            label_areas: Vec::with_capacity(num_widgets),
            block_areas: Vec::with_capacity(num_blocks),
            blocks: Vec::with_capacity(num_blocks),
        }
    }

    /// Clear all data, including area, page size and page count.
    pub fn clear(&mut self)
        ensures
            final(self).wf(),
            final(self).area_view() == Rect::zero(),
            final(self).page_size_view() == (Size { width: 0, height: 0 }),
            final(self).page_count_view() == 0,
            obeys_key_model::<W>() ==> final(self).key_map() == Map::<W, usize>::empty(),
            final(self).keys() == Seq::<W>::empty(),
            final(self).widget_areas() == Seq::<Rect>::empty(),
            final(self).labels() == Seq::<Option<String>>::empty(),
            final(self).label_areas() == Seq::<Rect>::empty(),
            final(self).block_areas() == Seq::<Rect>::empty(),
            final(self).blocks() == Seq::<Option<B>>::empty(),
    {
        self.area = Rect { x: 0, y: 0, width: 0, height: 0 };
        self.page_size = Size { width: 0, height: 0 };
        self.page_count = 0;
        self.widgets.clear();
        self.rwidgets.clear();
        self.widget_areas.clear();
        self.labels.clear();
        self.label_areas.clear();
        self.block_areas.clear();
        self.blocks.clear();
    }

    /// Everything except area, page size and page count is as in `other`.
    pub open spec fn same_content(&self, other: &Self) -> bool {
        &&& self.key_map() == other.key_map()
        &&& self.keys() == other.keys()
        &&& self.widget_areas() == other.widget_areas()
        &&& self.labels() == other.labels()
        &&& self.label_areas() == other.label_areas()
        &&& self.block_areas() == other.block_areas()
        &&& self.blocks() == other.blocks()
    }

    /// Set the area used for this layout.
    pub fn set_area(&mut self, area: Rect)
        requires
            old(self).wf(),
        ensures
            final(self).wf(),
            final(self).same_content(old(self)),
            final(self).area_view() == area,
            final(self).page_size_view() == old(self).page_size_view(),
            final(self).page_count_view() == old(self).page_count_view(),
    {
        self.area = area;
        assert(self.key_map() == old(self).key_map());
    }

    /// The area used for this layout.
    pub fn area(&self) -> (r: Rect)
        ensures
            r == self.area_view(),
    {
        self.area
    }

    /// Area differs from stored area?
    pub fn area_changed(&self, area: Rect) -> (r: bool)
        ensures
            r == (self.area_view() != area),
    {
        self.area != area
    }

    /// Set the page-size for this layout.
    pub fn set_page_size(&mut self, size: Size)
        requires
            old(self).wf(),
        ensures
            final(self).wf(),
            final(self).same_content(old(self)),
            final(self).area_view() == old(self).area_view(),
            final(self).page_size_view() == size,
            final(self).page_count_view() == old(self).page_count_view(),
    {
        self.page_size = size;
        assert(self.key_map() == old(self).key_map());
    }

    /// The page-size for this layout.
    pub fn page_size(&self) -> (r: Size)
        ensures
            r == self.page_size_view(),
    {
        self.page_size
    }

    /// Page-size differs from the stored one?
    pub fn size_changed(&self, size: Size) -> (r: bool)
        ensures
            r == (self.page_size_view() != size),
    {
        self.page_size != size
    }

    /// Set the number of pages.
    pub fn set_page_count(&mut self, page_count: usize)
        requires
            old(self).wf(),
        ensures
            final(self).wf(),
            final(self).same_content(old(self)),
            final(self).area_view() == old(self).area_view(),
            final(self).page_size_view() == old(self).page_size_view(),
            final(self).page_count_view() == page_count,
    {
        self.page_count = page_count;
        assert(self.key_map() == old(self).key_map());
    }

    /// Number of pages.
    pub fn page_count(&self) -> (r: usize)
        ensures
            r == self.page_count_view(),
    {
        self.page_count
    }

    /// Add widget + label areas for the given key.
    ///
    /// A key that was already added now refers to the new widget.
    pub fn add(&mut self, key: W, area: Rect, label: Option<String>, label_area: Rect)
        requires
            old(self).wf(),
        ensures
            final(self).wf(),
            final(self).area_view() == old(self).area_view(),
            final(self).page_size_view() == old(self).page_size_view(),
            final(self).page_count_view() == old(self).page_count_view(),
            obeys_key_model::<W>() ==> final(self).key_map() == old(self).key_map().insert(key, old(self).widget_areas().len() as usize),
            final(self).keys().len() == old(self).keys().len() + 1,
            final(self).keys().drop_last() == old(self).keys(),
            cloned(key, final(self).keys().last()),
            final(self).widget_areas() == old(self).widget_areas().push(area),
            final(self).labels() == old(self).labels().push(label),
            final(self).label_areas() == old(self).label_areas().push(label_area),
            final(self).block_areas() == old(self).block_areas(),
            final(self).blocks() == old(self).blocks(),
    {
        let idx = self.widget_areas.len();
        let k2 = key.clone();
        self.widgets.insert(key, idx);
        self.rwidgets.push(k2);
        self.widget_areas.push(area);
        self.labels.push(label);
        self.label_areas.push(label_area);
        assert(self.rwidgets@.drop_last() =~= old(self).rwidgets@);
        assert(obeys_key_model::<W>() ==> forall|k: W| #[trigger] self.key_map().contains_key(k)
            ==> self.key_map()[k] < self.widget_areas().len()) by {
            if obeys_key_model::<W>() {
                assert forall|k: W| #[trigger] self.key_map().contains_key(k)
                    implies self.key_map()[k] < self.widget_areas().len() by {
                    if k != key {
                        assert(old(self).key_map().contains_key(k));
                    }
                }
            }
        }
    }

    /// Add a block.
    pub fn add_block(&mut self, area: Rect, block: Option<B>)
        requires
            old(self).wf(),
        ensures
            final(self).wf(),
            final(self).area_view() == old(self).area_view(),
            final(self).page_size_view() == old(self).page_size_view(),
            final(self).page_count_view() == old(self).page_count_view(),
            final(self).key_map() == old(self).key_map(),
            final(self).keys() == old(self).keys(),
            final(self).widget_areas() == old(self).widget_areas(),
            final(self).labels() == old(self).labels(),
            final(self).label_areas() == old(self).label_areas(),
            final(self).block_areas() == old(self).block_areas().push(area),
            final(self).blocks() == old(self).blocks().push(block),
    {
        self.block_areas.push(area);
        self.blocks.push(block);
        assert(self.key_map() == old(self).key_map());
    }

    /// Places the layout at the given position: all areas are shifted
    /// right and down by the position.
    pub fn place(self, pos: Position) -> (r: Self)
        requires
            self.wf(),
            all_can_place(self.widget_areas(), pos),
            all_can_place(self.label_areas(), pos),
            all_can_place(self.block_areas(), pos),
        ensures
            r.wf(),
            r.area_view() == self.area_view(),
            r.page_size_view() == self.page_size_view(),
            r.page_count_view() == self.page_count_view(),
            r.key_map() == self.key_map(),
            r.keys() == self.keys(),
            r.labels() == self.labels(),
            r.blocks() == self.blocks(),
            r.widget_areas() == all_placed(self.widget_areas(), pos),
            r.label_areas() == all_placed(self.label_areas(), pos),
            r.block_areas() == all_placed(self.block_areas(), pos),
    {
        let mut s = self;
        place_all(&mut s.widget_areas, pos);
        place_all(&mut s.label_areas, pos);
        place_all(&mut s.block_areas, pos);
        assert(s.key_map() == self.key_map());
        s
    }

    /// Page of an area: its top row divided by the page height.
    pub open spec fn page_of_area(&self, area: Rect) -> int {
        area.y as int / self.page_size_view().height as int
    }

    /// First widget on the given page.
    pub fn first(&self, page: usize) -> (r: Option<W>)
        requires
            self.wf(),
            self.widget_areas().len() > 0 ==> self.page_size_view().height > 0,
        ensures
            match r {
                Some(k) => exists|i: int| {
                    &&& 0 <= i < self.widget_areas().len()
                    &&& self.page_of_area(#[trigger] self.widget_areas()[i]) == page
                    &&& forall|j: int| 0 <= j < i ==> self.page_of_area(#[trigger] self.widget_areas()[j]) != page
                    &&& cloned(self.keys()[i], k)
                },
                None => forall|i: int| 0 <= i < self.widget_areas().len()
                    ==> self.page_of_area(#[trigger] self.widget_areas()[i]) != page,
            },
    {
        let mut idx: usize = 0;
        while idx < self.widget_areas.len()
            invariant
                self.wf(),
                idx <= self.widget_areas().len(),
                self.widget_areas().len() > 0 ==> self.page_size_view().height > 0,
                forall|j: int| 0 <= j < idx ==> self.page_of_area(#[trigger] self.widget_areas()[j]) != page,
            decreases self.widget_areas().len() - idx,
        {
            let test = (self.widget_areas[idx].y / self.page_size.height) as usize;
            if page == test {
                let k = self.rwidgets[idx].clone();
                assert(self.page_of_area(self.widget_areas()[idx as int]) == page);
                return Some(k);
            }
            idx += 1;
        }
        None
    }

    /// The page of the widget, if the key is known.
    pub fn page_of(&self, widget: W) -> (r: Option<usize>)
        requires
            self.wf(),
            self.widget_areas().len() > 0 ==> self.page_size_view().height > 0,
        ensures
            obeys_key_model::<W>() ==> match r {
                Some(p) => self.key_map().contains_key(widget)
                    && p == self.page_of_area(self.widget_areas()[self.key_map()[widget] as int]),
                None => !self.key_map().contains_key(widget),
            },
    {
        let idx = match self.try_index_of(widget) {
            Some(idx) => idx,
            None => {
                return None;
            },
        };
        if idx < self.widget_areas.len() {
            Some((self.widget_areas[idx].y / self.page_size.height) as usize)
        } else {
            None
        }
    }

    /// Any widgets or blocks?
    pub fn is_empty(&self) -> (r: bool)
        ensures
            r == (self.widget_areas().len() == 0 && self.block_areas().len() == 0),
    {
        self.widget_areas.len() == 0 && self.block_areas.len() == 0
    }

    /// Is this a layout with height = u16::MAX?
    pub fn is_endless(&self) -> (r: bool)
        ensures
            r == (self.area_view().height == u16::MAX),
    {
        self.area.height == u16::MAX
    }

    /// Number of distinct widget keys.
    pub fn widget_len(&self) -> (r: usize)
        ensures
            obeys_key_model::<W>() ==> r == self.key_map().len(),
    {
        self.widgets.len()
    }

    /// Number of widget areas.
    pub(crate) fn area_len(&self) -> (r: usize)
        ensures
            r == self.widget_areas().len(),
    {
        self.widget_areas.len()
    }

    /// Returns the index for this widget.
    pub fn try_index_of(&self, widget: W) -> (r: Option<usize>)
        ensures
            obeys_key_model::<W>() ==> match r {
                Some(i) => self.key_map().contains_key(widget) && i == self.key_map()[widget],
                None => !self.key_map().contains_key(widget),
            },
    {
        match self.widgets.get(&widget) {
            Some(i) => Some(*i),
            None => None,
        }
    }

    /// Returns the index for this widget; the key must be known.
    pub fn index_of(&self, widget: W) -> (r: usize)
        requires
            self.wf(),
            obeys_key_model::<W>(),
            self.key_map().contains_key(widget),
        ensures
            r == self.key_map()[widget],
            r < self.widget_areas().len(),
    {
        match self.widgets.get(&widget) {
            Some(i) => *i,
            None => 0,
        }
    }

    /// Widget key for the index.
    pub fn widget_key(&self, idx: usize) -> (r: W)
        requires
            idx < self.keys().len(),
        ensures
            cloned(self.keys()[idx as int], r),
    {
        self.rwidgets[idx].clone()
    }

    /// All widget keys, in no particular order.
    pub fn widget_keys(&self) -> (r: std::collections::hash_map::Keys<'_, W, usize>)
        ensures
            obeys_key_model::<W>() ==> IteratorSpec::remaining(&r).unref().to_set() == self.key_map().dom(),
            obeys_key_model::<W>() ==> IteratorSpec::remaining(&r).no_duplicates(),
    {
        self.widgets.keys()
    }

    /// The label area for the widget key; the key must be known.
    pub fn label_for(&self, widget: W) -> (r: Rect)
        requires
            self.wf(),
            obeys_key_model::<W>(),
            self.key_map().contains_key(widget),
        ensures
            r == self.label_areas()[self.key_map()[widget] as int],
    {
        let idx = self.index_of(widget);
        self.label_areas[idx]
    }

    /// The label area.
    pub fn label(&self, idx: usize) -> (r: Rect)
        requires
            idx < self.label_areas().len(),
        ensures
            r == self.label_areas()[idx as int],
    {
        self.label_areas[idx]
    }

    /// Set the label area.
    pub fn set_label(&mut self, idx: usize, area: Rect)
        requires
            old(self).wf(),
            idx < old(self).label_areas().len(),
        ensures
            final(self).wf(),
            final(self).area_view() == old(self).area_view(),
            final(self).page_size_view() == old(self).page_size_view(),
            final(self).page_count_view() == old(self).page_count_view(),
            final(self).key_map() == old(self).key_map(),
            final(self).keys() == old(self).keys(),
            final(self).widget_areas() == old(self).widget_areas(),
            final(self).labels() == old(self).labels(),
            final(self).label_areas() == old(self).label_areas().update(idx as int, area),
            final(self).block_areas() == old(self).block_areas(),
            final(self).blocks() == old(self).blocks(),
    {
        self.label_areas.set(idx, area);
        assert(self.key_map() == old(self).key_map());
    }

    /// The widget area for the widget key; the key must be known.
    pub fn widget_for(&self, widget: W) -> (r: Rect)
        requires
            self.wf(),
            obeys_key_model::<W>(),
            self.key_map().contains_key(widget),
        ensures
            r == self.widget_areas()[self.key_map()[widget] as int],
    {
        let idx = self.index_of(widget);
        self.widget_areas[idx]
    }

    /// The widget area.
    pub fn widget(&self, idx: usize) -> (r: Rect)
        requires
            idx < self.widget_areas().len(),
        ensures
            r == self.widget_areas()[idx as int],
    {
        self.widget_areas[idx]
    }

    /// Change the widget area.
    pub fn set_widget(&mut self, idx: usize, area: Rect)
        requires
            old(self).wf(),
            idx < old(self).widget_areas().len(),
        ensures
            final(self).wf(),
            final(self).area_view() == old(self).area_view(),
            final(self).page_size_view() == old(self).page_size_view(),
            final(self).page_count_view() == old(self).page_count_view(),
            final(self).key_map() == old(self).key_map(),
            final(self).keys() == old(self).keys(),
            final(self).widget_areas() == old(self).widget_areas().update(idx as int, area),
            final(self).labels() == old(self).labels(),
            final(self).label_areas() == old(self).label_areas(),
            final(self).block_areas() == old(self).block_areas(),
            final(self).blocks() == old(self).blocks(),
    {
        self.widget_areas.set(idx, area);
        assert(self.key_map() == old(self).key_map());
    }

    /// The label text for the widget key; the key must be known.
    pub fn try_label_str_for(&self, widget: W) -> (r: &Option<String>)
        requires
            self.wf(),
            obeys_key_model::<W>(),
            self.key_map().contains_key(widget),
        ensures
            *r == self.labels()[self.key_map()[widget] as int],
    {
        let idx = self.index_of(widget);
        &self.labels[idx]
    }

    /// The label text.
    pub fn try_label_str(&self, idx: usize) -> (r: &Option<String>)
        requires
            idx < self.labels().len(),
        ensures
            *r == self.labels()[idx as int],
    {
        &self.labels[idx]
    }

    /// The label text for the widget key, or an empty string; the key
    /// must be known.
    pub fn label_str_for(&self, widget: W) -> (r: &str)
        requires
            self.wf(),
            obeys_key_model::<W>(),
            self.key_map().contains_key(widget),
        ensures
            r@ == label_text(self.labels()[self.key_map()[widget] as int]),
    {
        let idx = self.index_of(widget);
        self.label_str(idx)
    }

    /// The label text, or an empty string.
    pub fn label_str(&self, idx: usize) -> (r: &str)
        requires
            idx < self.labels().len(),
        ensures
            r@ == label_text(self.labels()[idx as int]),
    {
        match &self.labels[idx] {
            Some(s) => s.as_str(),
            None => {
                proof {
                    reveal_strlit("");
                }
                ""
            },
        }
    }

    /// Set the label text.
    pub fn set_label_str(&mut self, idx: usize, str: Option<String>)
        requires
            old(self).wf(),
            idx < old(self).labels().len(),
        ensures
            final(self).wf(),
            final(self).area_view() == old(self).area_view(),
            final(self).page_size_view() == old(self).page_size_view(),
            final(self).page_count_view() == old(self).page_count_view(),
            final(self).key_map() == old(self).key_map(),
            final(self).keys() == old(self).keys(),
            final(self).widget_areas() == old(self).widget_areas(),
            final(self).labels() == old(self).labels().update(idx as int, str),
            final(self).label_areas() == old(self).label_areas(),
            final(self).block_areas() == old(self).block_areas(),
            final(self).blocks() == old(self).blocks(),
    {
        self.labels.set(idx, str);
        assert(self.key_map() == old(self).key_map());
    }

    /// Number of blocks.
    pub fn block_len(&self) -> (r: usize)
        requires
            self.wf(),
        ensures
            r == self.blocks().len(),
    {
        self.blocks.len()
    }

    /// The block area.
    pub fn block_area(&self, idx: usize) -> (r: Rect)
        requires
            idx < self.block_areas().len(),
        ensures
            r == self.block_areas()[idx as int],
    {
        self.block_areas[idx]
    }

    /// Set the block area.
    pub fn set_block_area(&mut self, idx: usize, area: Rect)
        requires
            old(self).wf(),
            idx < old(self).block_areas().len(),
        ensures
            final(self).wf(),
            final(self).area_view() == old(self).area_view(),
            final(self).page_size_view() == old(self).page_size_view(),
            final(self).page_count_view() == old(self).page_count_view(),
            final(self).key_map() == old(self).key_map(),
            final(self).keys() == old(self).keys(),
            final(self).widget_areas() == old(self).widget_areas(),
            final(self).labels() == old(self).labels(),
            final(self).label_areas() == old(self).label_areas(),
            final(self).block_areas() == old(self).block_areas().update(idx as int, area),
            final(self).blocks() == old(self).blocks(),
    {
        self.block_areas.set(idx, area);
        assert(self.key_map() == old(self).key_map());
    }

    /// The block areas in order.
    pub fn block_area_iter(&self) -> (r: std::slice::Iter<'_, Rect>)
        ensures
            IteratorSpec::remaining(&r).unref() == self.block_areas(),
    {
        self.block_areas.as_slice().iter()
    }

    /// The block.
    pub fn block(&self, idx: usize) -> (r: &Option<B>)
        requires
            idx < self.blocks().len(),
        ensures
            *r == self.blocks()[idx as int],
    {
        &self.blocks[idx]
    }

    /// Set the block.
    pub fn set_block(&mut self, idx: usize, block: Option<B>)
        requires
            old(self).wf(),
            idx < old(self).blocks().len(),
        ensures
            final(self).wf(),
            final(self).area_view() == old(self).area_view(),
            final(self).page_size_view() == old(self).page_size_view(),
            final(self).page_count_view() == old(self).page_count_view(),
            final(self).key_map() == old(self).key_map(),
            final(self).keys() == old(self).keys(),
            final(self).widget_areas() == old(self).widget_areas(),
            final(self).labels() == old(self).labels(),
            final(self).label_areas() == old(self).label_areas(),
            final(self).block_areas() == old(self).block_areas(),
            final(self).blocks() == old(self).blocks().update(idx as int, block),
    {
        self.blocks.set(idx, block);
        assert(self.key_map() == old(self).key_map());
    }
}

/// Widget `i` of the layout is the one its key refers to: the other
/// widgets with the same key were replaced by it.
pub open spec fn is_live<W, B>(l: GenericLayout<W, B>, i: int) -> bool where W: Eq + Hash + Clone {
    &&& l.key_map().contains_key(l.keys()[i])
    &&& l.key_map()[l.keys()[i]] == i
}

/// Indexes `0..n` of the live widgets, in order.
pub open spec fn live_indices<W, B>(l: GenericLayout<W, B>, n: int) -> Seq<int>
    where W: Eq + Hash + Clone
    decreases n,
{
    if n <= 0 {
        Seq::empty()
    } else if is_live(l, n - 1) {
        live_indices(l, n - 1).push(n - 1)
    } else {
        live_indices(l, n - 1)
    }
}

/// The map after inserting the keys with consecutive indexes from `base`.
pub open spec fn insert_keys<W>(m: Map<W, usize>, ks: Seq<W>, base: int) -> Map<W, usize>
    decreases ks.len(),
{
    if ks.len() == 0 {
        m
    } else {
        insert_keys(m, ks.drop_last(), base).insert(ks.last(), (base + ks.len() - 1) as usize)
    }
}

proof fn lemma_live_indices_bounds<W, B>(l: GenericLayout<W, B>, n: int)
    where W: Eq + Hash + Clone
    requires
        n >= 0,
    ensures
        forall|j: int| 0 <= j < live_indices(l, n).len() ==> 0 <= #[trigger] live_indices(l, n)[j] < n,
        live_indices(l, n).len() <= n,
    decreases n,
{
    if n > 0 {
        lemma_live_indices_bounds(l, n - 1);
    }
}

impl<W, B> GenericLayout<W, B> where W: Eq + Hash + Clone {
    /// Append another layout.
    ///
    /// Shifts the second layout to the given position and adds
    /// everything. Widgets of the second layout that were replaced by
    /// a later one with the same key are left out, and a key that is
    /// used in both layouts refers to the appended widget.
    pub fn append(&mut self, place: Position, layout: GenericLayout<W, B>)
        requires
            old(self).wf(),
            layout.wf(),
            all_can_place(layout.widget_areas(), place),
            all_can_place(layout.label_areas(), place),
            all_can_place(layout.block_areas(), place),
            old(self).widget_areas().len() + layout.widget_areas().len() <= usize::MAX,
        ensures
            final(self).wf(),
            final(self).area_view() == old(self).area_view(),
            final(self).page_size_view() == old(self).page_size_view(),
            final(self).page_count_view() == old(self).page_count_view(),
            obeys_key_model::<W>() ==> ({
                let live = live_indices(layout, layout.widget_areas().len() as int);
                let n0 = old(self).widget_areas().len() as int;
                &&& final(self).widget_areas() == old(self).widget_areas()
                    + live.map_values(|i: int| placed(layout.widget_areas()[i], place))
                &&& final(self).labels() == old(self).labels() + live.map_values(|i: int| layout.labels()[i])
                &&& final(self).label_areas() == old(self).label_areas()
                    + live.map_values(|i: int| placed(layout.label_areas()[i], place))
                &&& final(self).keys().len() == n0 + live.len()
                &&& final(self).keys().take(n0) == old(self).keys()
                &&& forall|j: int| 0 <= j < live.len() ==> cloned(layout.keys()[live[j]], #[trigger] final(self).keys()[n0 + j])
                &&& exists|ks: Seq<W>| {
                    &&& ks.len() == live.len()
                    &&& forall|j: int| 0 <= j < live.len() ==> cloned(final(self).keys()[n0 + j], #[trigger] ks[j])
                    &&& final(self).key_map() == insert_keys(old(self).key_map(), ks, n0)
                }
            }),
            final(self).block_areas() == old(self).block_areas() + all_placed(layout.block_areas(), place),
            final(self).blocks() == old(self).blocks() + layout.blocks(),
    {
        let ghost orig = layout;
        let pl = layout.place(place);
        let ghost n0 = self.widget_areas().len() as int;
        let ghost ks: Seq<W> = Seq::empty();
        let n = pl.widget_areas.len();
        proof {
            lemma_live_same(orig, pl, n as int);
        }
        let mut i: usize = 0;
        while i < n
            invariant
                n == pl.widget_areas().len(),
                pl.wf(),
                self.wf(),
                i <= n,
                n0 + n <= usize::MAX,
                n0 == old(self).widget_areas().len(),
                self.area_view() == old(self).area_view(),
                self.page_size_view() == old(self).page_size_view(),
                self.page_count_view() == old(self).page_count_view(),
                self.block_areas() == old(self).block_areas(),
                self.blocks() == old(self).blocks(),
                self.widget_areas().len() == n0 + self.keys().len() - old(self).keys().len(),
                self.keys().len() >= n0,
                self.keys().take(n0) == old(self).keys(),
                ks.len() == self.keys().len() - n0,
                forall|j: int| 0 <= j < ks.len() ==> cloned(self.keys()[n0 + j], #[trigger] ks[j]),
                obeys_key_model::<W>() ==> ({
                    let live = live_indices(pl, i as int);
                    &&& self.widget_areas() == old(self).widget_areas()
                        + live.map_values(|k: int| pl.widget_areas()[k])
                    &&& self.labels() == old(self).labels() + live.map_values(|k: int| pl.labels()[k])
                    &&& self.label_areas() == old(self).label_areas()
                        + live.map_values(|k: int| pl.label_areas()[k])
                    &&& self.keys().len() == n0 + live.len()
                    &&& forall|j: int| 0 <= j < live.len() ==> cloned(pl.keys()[live[j]], #[trigger] self.keys()[n0 + j])
                    &&& self.key_map() == insert_keys(old(self).key_map(), ks, n0)
                }),
            decreases n - i,
        {
            proof {
                lemma_live_indices_bounds(pl, i as int);
            }
            let ghost live0 = live_indices(pl, i as int);
            let ghost keys0 = self.keys();
            let ghost wa0 = self.widget_areas();
            let ghost la0 = self.labels();
            let ghost lar0 = self.label_areas();
            let ghost map0 = self.key_map();
            let live = match pl.widgets.get(&pl.rwidgets[i]) {
                Some(idx) => *idx == i,
                None => false,
            };
            if live {
                let new_idx = self.widget_areas.len();
                let k = pl.rwidgets[i].clone();
                let k2 = k.clone();
                self.widget_areas.push(pl.widget_areas[i]);
                self.labels.push(pl.labels[i].clone());
                self.label_areas.push(pl.label_areas[i]);
                self.widgets.insert(k2, new_idx);
                self.rwidgets.push(k);
                proof {
                    let ks0 = ks;
                    ks = ks.push(k2);
                    assert(ks.drop_last() =~= ks0);
                    assert(self.keys().take(n0) =~= keys0.take(n0));
                    assert forall|j: int| 0 <= j < ks.len() implies cloned(self.keys()[n0 + j], #[trigger] ks[j]) by {
                        if j < ks0.len() {
                            assert(self.keys()[n0 + j] == keys0[n0 + j]);
                        }
                    }
                    if obeys_key_model::<W>() {
                        assert(is_live(pl, i as int));
                        let live1 = live_indices(pl, i + 1);
                        assert(live1 == live0.push(i as int));
                        assert(live1.map_values(|k: int| pl.widget_areas()[k])
                            =~= live0.map_values(|k: int| pl.widget_areas()[k]).push(pl.widget_areas()[i as int]));
                        assert(live1.map_values(|k: int| pl.labels()[k])
                            =~= live0.map_values(|k: int| pl.labels()[k]).push(pl.labels()[i as int]));
                        assert(live1.map_values(|k: int| pl.label_areas()[k])
                            =~= live0.map_values(|k: int| pl.label_areas()[k]).push(pl.label_areas()[i as int]));
                        assert(self.widget_areas() =~= old(self).widget_areas() + live1.map_values(|k: int| pl.widget_areas()[k]));
                        assert(self.labels() =~= old(self).labels() + live1.map_values(|k: int| pl.labels()[k]));
                        assert(self.label_areas() =~= old(self).label_areas() + live1.map_values(|k: int| pl.label_areas()[k]));
                        assert forall|j: int| 0 <= j < live1.len() implies cloned(pl.keys()[live1[j]], #[trigger] self.keys()[n0 + j]) by {
                            if j < live0.len() {
                                assert(self.keys()[n0 + j] == keys0[n0 + j]);
                            }
                        }
                    }
                    assert(obeys_key_model::<W>() ==> forall|kk: W| #[trigger] self.key_map().contains_key(kk)
                        ==> self.key_map()[kk] < self.widget_areas().len()) by {
                        if obeys_key_model::<W>() {
                            assert forall|kk: W| #[trigger] self.key_map().contains_key(kk)
                                implies self.key_map()[kk] < self.widget_areas().len() by {
                                if kk != k2 {
                                    assert(map0.contains_key(kk));
                                }
                            }
                        }
                    }
                }
            } else {
                proof {
                    if obeys_key_model::<W>() {
                        assert(!is_live(pl, i as int));
                        assert(live_indices(pl, i + 1) == live0);
                    }
                }
            }
            i += 1;
        }
        let ghost pwa = pl.widget_areas();
        let ghost pla = pl.label_areas();
        let ghost plb = pl.labels();
        let mut pl = pl;
        self.block_areas.append(&mut pl.block_areas);
        self.blocks.append(&mut pl.blocks);
        proof {
            if obeys_key_model::<W>() {
                let live = live_indices(orig, n as int);
                lemma_live_indices_bounds(orig, n as int);
                lemma_live_same(orig, pl, n as int);
                assert forall|j: int| 0 <= j < live.len() implies
                    pwa[live[j]] == placed(orig.widget_areas()[live[j]], place) by {
                    assert(0 <= live[j] < n);
                }
                assert forall|j: int| 0 <= j < live.len() implies
                    pla[live[j]] == placed(orig.label_areas()[live[j]], place) by {
                    assert(0 <= live[j] < n);
                }
                assert(live.map_values(|k: int| pwa[k])
                    =~= live.map_values(|k: int| placed(orig.widget_areas()[k], place)));
                assert(live.map_values(|k: int| plb[k])
                    =~= live.map_values(|k: int| orig.labels()[k]));
                assert(live.map_values(|k: int| pla[k])
                    =~= live.map_values(|k: int| placed(orig.label_areas()[k], place)));
                assert(self.key_map() == insert_keys(old(self).key_map(), ks, n0));
            }
        }
    }
}

/// Placing a layout does not change which widgets are live, and
/// places the live areas.
proof fn lemma_live_same<W, B>(a: GenericLayout<W, B>, b: GenericLayout<W, B>, n: int)
    where W: Eq + Hash + Clone
    requires
        a.key_map() == b.key_map(),
        a.keys() == b.keys(),
    ensures
        live_indices(a, n) == live_indices(b, n),
    decreases n,
{
    if n > 0 {
        lemma_live_same(a, b, n - 1);
    }
}

/// Text of a label, or the empty string.
pub open spec fn label_text(label: Option<String>) -> Seq<char> {
    match label {
        Some(s) => s@,
        None => Seq::empty(),
    }
}

} // verus!
