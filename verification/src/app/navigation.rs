//! Moving within lists and back to the screen before.

use crate::app::{next_index, prev_index, App, Step};
use crate::lists::{empty_list, push_deep};
use vstd::prelude::*;

verus! {

impl App {
    /// The entries of the preset list.
    pub fn preset_display_items(&self) -> (items: Vec<String>)
        ensures
            items.deep_view() == self@.preset_items(),
    {
        let ghost all = self.presets.deep_view();
        let mut items: Vec<String> = empty_list();
        let mut i: usize = 0;
        assert(items.deep_view() =~= Seq::new(0, |k: int| all[k].name));
        while i < self.presets.len()
            invariant
                i <= self.presets.len(),
                all == self.presets.deep_view(),
                items.deep_view() == Seq::new(i as nat, |k: int| all[k].name),
            decreases self.presets.len() - i,
        {
            push_deep(&mut items, self.presets[i].name.clone());
            i += 1;
            assert(items.deep_view() =~= Seq::new(i as nat, |k: int| all[k].name));
        }
        push_deep(&mut items, String::from_str("Custom"));
        items
    }

    /// Moves a cursor to the next entry of a list of `len` entries, and
    /// from the last to the first.
    pub fn list_next(len: usize, cursor: &mut usize)
        ensures
            *final(cursor) == next_index(len, *old(cursor)),
            len > 0 ==> *final(cursor) < len,
    {
        if len == 0 {
            return ;
        }
        let at: usize = *cursor % len;
        assert((at + 1) % (len as int) == (*cursor + 1) % (len as int)) by (nonlinear_arith)
            requires
                at == *cursor % len,
                len > 0,
        ;
        *cursor = (at + 1) % len;
    }

    /// Moves a cursor to the entry before, and from the first to the last.
    pub fn list_prev(len: usize, cursor: &mut usize)
        ensures
            *final(cursor) == prev_index(len, *old(cursor)),
            len > 0 && *old(cursor) < len ==> *final(cursor) < len,
    {
        if len == 0 {
            return ;
        }
        *cursor = if *cursor == 0 {
            len - 1
        } else {
            *cursor - 1
        };
    }

    /// Goes back to the screen before, where the current screen has one to
    /// go back to. Says whether it did; where it did not, nothing has
    /// changed, and where it did, only the screen has.
    pub fn go_back(&mut self) -> (went: bool)
        ensures
            went == old(self)@.back_target() is Some,
            final(self)@ == old(self)@.gone_back(),
    {
        let target = match self.step {
            Step::HostName => Some(Step::SelectPreset),
            Step::SelectNixosModules => Some(Step::HostName),
            Step::SelectSystemPackages => Some(Step::SelectNixosModules),
            Step::CreateUser => {
                if self.users.len() > 0 {
                    None
                } else if self.is_custom {
                    Some(Step::SelectSystemPackages)
                } else {
                    Some(Step::SelectPreset)
                }
            },
            Step::PartitionModeSelect => Some(Step::SelectDisk),
            Step::SwapSize => Some(Step::PartitionModeSelect),
            Step::CustomPartitionMount => {
                if self.partitions.len() > 0 {
                    None
                } else {
                    Some(Step::PartitionModeSelect)
                }
            },
            Step::CustomPartitionSize => Some(Step::CustomPartitionMount),
            Step::CustomPartitionFs => Some(Step::CustomPartitionSize),
            Step::Confirm => Some(Step::PartitionModeSelect),
            _ => None,
        };
        match target {
            Some(step) => {
                self.step = step;
                true
            },
            None => false,
        }
    }
}

} // verus!
