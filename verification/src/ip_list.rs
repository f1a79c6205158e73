//! The address list widget: an ordered sequence of validated records and
//! the selection index that navigation and argument-less deletion use.

use vstd::prelude::*;

use crate::device_docs::DeviceDoc;
use crate::keys::{KeyCode, KeyEvent};
use crate::renderable_widget::RenderableWidget;

verus! {

/// The list state at the specification level.
#[verifier::ext_equal]
pub struct ListModel {
    /// The stored address texts, in insertion order.
    pub ips: Seq<Seq<char>>,
    /// The highlighted position.
    pub selected: int,
}

/// Where the selection sits after removing index `i` from a list of
/// length `len`: removal strictly before the selection shifts it down by
/// one to keep the same item highlighted; removal at or after it leaves
/// it alone, unless the selection pointed at the last item, in which
/// case it backs up by one, never below zero.
pub open spec fn selected_after_remove(sel: int, len: int, i: int) -> int {
    if i < sel {
        sel - 1
    } else if sel == len - 1 && sel > 0 {
        sel - 1
    } else {
        sel
    }
}

/// How `Up` and `Down` move the selection: one step, clamped at both
/// ends, never wrapping, and never onto an out-of-range position.
pub open spec fn nav_step_spec(m: ListModel, code: KeyCode) -> ListModel {
    match code {
        KeyCode::Up => {
            if m.selected > 0 {
                ListModel { selected: m.selected - 1, ..m }
            } else {
                m
            }
        },
        KeyCode::Down => {
            if m.selected + 1 < m.ips.len() {
                ListModel { selected: m.selected + 1, ..m }
            } else {
                m
            }
        },
        _ => m,
    }
}

/// The working list of device addresses, plus the selected index.
#[derive(Debug)]
pub struct IpList {
    /// The records, in insertion order.
    pub ips: Vec<DeviceDoc>,
    /// The highlighted position; zero when the list is empty.
    pub selected: usize,
}

impl View for IpList {
    type V = ListModel;

    open spec fn view(&self) -> ListModel {
        ListModel {
            ips: self.ips@.map_values(|d: DeviceDoc| d@),
            selected: self.selected as int,
        }
    }
}

impl IpList {
    /// The selection is a valid index whenever the list is non-empty,
    /// and rests at zero when it is empty.
    pub open spec fn wf(&self) -> bool {
        &&& self.ips@.len() > 0 ==> self.selected < self.ips@.len()
        &&& self.ips@.len() == 0 ==> self.selected == 0
    }

    /// An empty list.
    pub fn new() -> (r: IpList)
        ensures
            r.wf(),
            r@ == (ListModel { ips: Seq::empty(), selected: 0 }),
    {
        let r = IpList { ips: Vec::new(), selected: 0 };
        proof {
            assert(r@ =~= (ListModel { ips: Seq::empty(), selected: 0 }));
        }
        r
    }

    /// Appends a record at the end.  Insertion never moves the
    /// selection.
    pub fn add(&mut self, doc: DeviceDoc)
        requires
            old(self).wf(),
        ensures
            final(self).wf(),
            final(self)@ == (ListModel {
                ips: old(self)@.ips.push(doc@),
                ..old(self)@
            }),
    {
        self.ips.push(doc);
        proof {
            assert(self@.ips =~= old(self)@.ips.push(doc@));
            assert(self@ =~= (ListModel { ips: old(self)@.ips.push(doc@), ..old(self)@ }));
        }
    }

    /// Removes the record at `i` and returns it.  The selection moves as
    /// [`selected_after_remove`] says, staying on the same logical item
    /// where possible.
    pub fn remove_at(&mut self, i: usize) -> (r: DeviceDoc)
        requires
            old(self).wf(),
            i < old(self)@.ips.len(),
        ensures
            final(self).wf(),
            final(self)@.ips == old(self)@.ips.remove(i as int),
            final(self)@.selected == selected_after_remove(
                old(self)@.selected,
                old(self)@.ips.len() as int,
                i as int,
            ),
            r@ == old(self)@.ips[i as int],
    {
        let len = self.ips.len();
        let r = self.ips.remove(i);
        if i < self.selected {
            self.selected = self.selected - 1;
        } else if self.selected == len - 1 && self.selected > 0 {
            self.selected = self.selected - 1;
        }
        proof {
            assert(self@.ips =~= old(self)@.ips.remove(i as int));
        }
        r
    }

    /// The stored address texts, in display order, for a renderer.
    pub fn entries(&self) -> (r: Vec<String>)
        ensures
            r@.len() == self@.ips.len(),
            forall|i: int| 0 <= i < r@.len() ==> #[trigger] r@[i]@ == self@.ips[i],
    {
        let mut out: Vec<String> = Vec::new();
        let mut j: usize = 0;
        while j < self.ips.len()
            invariant
                j <= self.ips@.len(),
                out@.len() == j,
                forall|i: int| 0 <= i < j ==> #[trigger] out@[i]@ == self@.ips[i],
            decreases self.ips@.len() - j,
        {
            out.push(self.ips[j].ip().clone());
            j = j + 1;
        }
        out
    }
}

impl RenderableWidget for IpList {
    open spec fn inv(&self) -> bool {
        self.wf()
    }

    open spec fn ready(&self) -> bool {
        true
    }

    /// Moves the selection on `Up`/`Down` and ignores every other key,
    /// as [`nav_step_spec`] says.
    fn handle_input(&mut self, key: KeyEvent)
        ensures
            final(self)@ == nav_step_spec(old(self)@, key.code),
    {
        match key.code {
            KeyCode::Up => {
                if self.selected > 0 {
                    self.selected = self.selected - 1;
                }
            },
            KeyCode::Down => {
                let len = self.ips.len();
                if len > 0 && self.selected < len - 1 {
                    self.selected = self.selected + 1;
                }
            },
            _ => {},
        }
        proof {
            assert(self@ =~= nav_step_spec(old(self)@, key.code));
        }
    }
}

impl Default for IpList {
    /// Same as [`IpList::new`].
    fn default() -> (r: IpList)
        ensures
            r.wf(),
            r@ == (ListModel { ips: Seq::empty(), selected: 0 }),
    {
        IpList::new()
    }
}

/// The selection bookkeeping of removal, spelled out case by case: for a
/// list of length `len` and a valid selection, removing strictly below
/// the selection yields `sel - 1`; removing at or above it yields `sel`
/// unless the selection was on the last item, in which case it yields
/// `sel - 1` floored at zero.
pub proof fn lemma_removal_selection(sel: int, len: int, i: int)
    requires
        0 <= sel < len,
        0 <= i < len,
    ensures
        i < sel ==> selected_after_remove(sel, len, i) == sel - 1,
        i >= sel && sel != len - 1 ==> selected_after_remove(sel, len, i) == sel,
        i >= sel && sel == len - 1 ==> selected_after_remove(sel, len, i) == (if sel > 0 {
            sel - 1
        } else {
            0
        }),
{
}

} // verus!
