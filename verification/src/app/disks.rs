//! Choosing the disk and laying out its partitions.

use crate::app::{App, AppView, Effect, PartitionMode, Step};
use crate::disk::{
    fitting_size, full_disk_layout, full_disk_plan, has_root, label_of, lemma_plan_extent_push,
    open_size_last, partition_label, plan_entry, plan_has_open_size_last, plan_has_root,
    plan_has_single_root, plan_valid, read_size_input, single_root, size_fits,
    size_input_of, FsType, PartitionPlanView, SizeInput, MAX_SWAP_GIB,
};
use crate::lists::{empty_list, push_deep};
use crate::text;
use vstd::prelude::*;

verus! {

/// Whether a text can be a mount point: `swap`, or a path from the root.
pub open spec fn mount_point_valid(mount: Seq<char>) -> bool {
    mount == "swap"@ || (mount.len() > 0 && mount[0] == '/')
}

impl AppView {
    /// The state after the disk under the cursor has been confirmed.
    pub open spec fn confirmed_disk(self) -> AppView {
        if self.disks.len() == 0 {
            self.says("No disks available"@)
        } else if self.disk_cursor >= self.disks.len() {
            self
        } else {
            AppView {
                selected_disk: Some(self.disks[self.disk_cursor as int]),
                status_message: None,
                step: Step::PartitionModeSelect,
                ..self
            }
        }
    }

    /// The state after the partition mode under the cursor has been
    /// confirmed: the first is the whole disk, the other a plan of the
    /// operator's own, which starts empty.
    pub open spec fn confirmed_partition_mode(self) -> AppView {
        if self.partition_mode_cursor == 0 {
            AppView { partition_mode: PartitionMode::FullDisk, step: Step::SwapSize, ..self }
        } else {
            AppView {
                partition_mode: PartitionMode::Custom,
                partitions: Seq::empty(),
                step: Step::CustomPartitionMount,
                ..self
            }
        }
    }

    /// The state after the swap size has been confirmed: a whole number of
    /// GiB, or nothing for no swap, gives the full-disk plan.
    pub open spec fn confirmed_swap_size(self) -> AppView {
        match size_input_of(self.swap_size_input) {
            SizeInput::Empty => AppView {
                partitions: full_disk_layout(0),
                step: Step::Confirm,
                ..self
            },
            SizeInput::Gib(gib) => if gib <= MAX_SWAP_GIB {
                AppView { partitions: full_disk_layout(gib as nat), step: Step::Confirm, ..self }
            } else {
                self.says(
                    "Invalid swap size. Enter a whole number in GiB (e.g. 4) or leave empty for no swap."@,
                )
            },
            SizeInput::Invalid => self.says(
                "Invalid swap size. Enter a whole number in GiB (e.g. 4) or leave empty for no swap."@,
            ),
        }
    }

    /// The state after the mount point of a custom partition has been
    /// confirmed.
    pub open spec fn confirmed_custom_mount(self) -> AppView {
        let mount = text::trimmed(self.part_mount_input);
        if mount.len() == 0 {
            self.says("Mount point cannot be empty"@)
        } else if !mount_point_valid(mount) {
            self.says("Mount point must start with '/' or be 'swap'"@)
        } else {
            AppView { status_message: None, step: Step::CustomPartitionSize, ..self }
        }
    }

    /// The state with one more partition in the plan, made of what was
    /// entered, and the fields empty for the next.
    pub open spec fn with_partition(self, size_mb: Option<u64>) -> AppView {
        let mount = text::trimmed(self.part_mount_input);
        AppView {
            partitions: self.partitions.push(
                PartitionPlanView {
                    label: label_of(mount),
                    mount_point: mount,
                    size_mb,
                    fs_type: FsType::every()[self.part_fs_cursor as int],
                },
            ),
            part_mount_input: Seq::empty(),
            part_size_input: Seq::empty(),
            part_fs_cursor: 0,
            step: Step::CustomPartitionAnother,
            ..self
        }
    }

    /// The state after the filesystem of a custom partition has been
    /// confirmed, which completes the partition: its size is what was
    /// typed, in GiB, or the rest of the disk where nothing was typed.
    pub open spec fn confirmed_custom_fs(self) -> AppView {
        if self.part_fs_cursor >= 4 {
            self
        } else {
            match size_input_of(self.part_size_input) {
                SizeInput::Empty => self.with_partition(None),
                SizeInput::Gib(gib) => if gib == 0 {
                    self.says("Size must be greater than 0."@)
                } else if size_fits(self.partitions, gib) {
                    self.with_partition(Some((gib * 1024) as u64))
                } else {
                    self.says(
                        "Invalid size. Enter a whole number in GiB or leave empty for remaining space."@,
                    )
                },
                SizeInput::Invalid => self.says(
                    "Invalid size. Enter a whole number in GiB or leave empty for remaining space."@,
                ),
            }
        }
    }

    /// The state after the question for another partition has been
    /// answered.
    pub open spec fn confirmed_custom_another(self) -> AppView {
        AppView {
            step: if self.another_partition_cursor == 0 {
                Step::CustomPartitionMount
            } else {
                Step::Confirm
            },
            another_partition_cursor: 0,
            ..self
        }
    }

    /// Whether the installation may begin: the operator chose to, and the
    /// plan is valid, which is to say that exactly one partition is to be
    /// mounted at `/` and none but the last leaves its size open.
    pub open spec fn install_allowed(self) -> bool {
        self.confirm_cursor == 0 && plan_valid(self.partitions)
    }

    /// The state after the summary has been confirmed: the installation
    /// begins where the operator chose to and the plan is valid; a plan
    /// without a root partition, with more than one, or with a partition
    /// before the last that leaves its size open is refused with a message
    /// that says which; and the other choice leads back to the partition
    /// mode.
    pub open spec fn confirmed_install(self) -> AppView {
        if self.confirm_cursor != 0 {
            self.at(Step::PartitionModeSelect)
        } else if !has_root(self.partitions) {
            self.says("No root (/) partition defined. Please go back and add one."@)
        } else if !single_root(self.partitions) {
            self.says("More than one root (/) partition defined. Please go back and keep one."@)
        } else if !open_size_last(self.partitions) {
            self.says(
                "Only the last partition can use the remaining space. Please go back and set sizes."@,
            )
        } else {
            self.at(Step::Installing)
        }
    }
}

impl App {
    /// Confirms the disk under the cursor.
    pub fn confirm_disk(&mut self)
        ensures
            final(self)@ == old(self)@.confirmed_disk(),
    {
        if self.disks.len() == 0 {
            self.say("No disks available");
            return ;
        }
        if self.disk_cursor >= self.disks.len() {
            return ;
        }
        self.selected_disk = Some(self.disks[self.disk_cursor].clone());
        self.status_message = None;
        self.step = Step::PartitionModeSelect;
    }

    /// Confirms the partition mode under the cursor.
    pub fn confirm_partition_mode(&mut self)
        ensures
            final(self)@ == old(self)@.confirmed_partition_mode(),
    {
        if self.partition_mode_cursor == 0 {
            self.partition_mode = PartitionMode::FullDisk;
            self.step = Step::SwapSize;
            return ;
        }
        self.partition_mode = PartitionMode::Custom;
        self.partitions = empty_list();
        self.step = Step::CustomPartitionMount;
        proof {
            reveal_with_fuel(crate::disk::plan_extent, 2);
        }
    }

    fn refuse_swap_size(&mut self)
        ensures
            final(self)@ == old(self)@.says(
                "Invalid swap size. Enter a whole number in GiB (e.g. 4) or leave empty for no swap."@,
            ),
    {
        self.say(
            "Invalid swap size. Enter a whole number in GiB (e.g. 4) or leave empty for no swap.",
        );
    }

    /// Confirms the swap size that was typed and builds the full-disk plan
    /// from it.
    pub fn confirm_swap_size(&mut self)
        ensures
            final(self)@ == old(self)@.confirmed_swap_size(),
    {
        let swap_gb: u64 = match read_size_input(self.swap_size_input.as_str()) {
            SizeInput::Empty => 0,
            SizeInput::Gib(gib) => {
                if gib > MAX_SWAP_GIB {
                    self.refuse_swap_size();
                    return ;
                }
                gib
            },
            SizeInput::Invalid => {
                self.refuse_swap_size();
                return ;
            },
        };
        self.partitions = full_disk_plan(swap_gb);
        self.step = Step::Confirm;
    }

    /// Confirms the mount point that was typed for a custom partition.
    pub fn confirm_custom_mount(&mut self)
        ensures
            final(self)@ == old(self)@.confirmed_custom_mount(),
    {
        let mount = text::trim(self.part_mount_input.as_str());
        if mount.as_str().is_empty() {
            self.say("Mount point cannot be empty");
            return ;
        }
        let v = text::chars_of(mount.as_str());
        if !text::same_text(mount.as_str(), "swap") && v[0] != '/' {
            self.say("Mount point must start with '/' or be 'swap'");
            return ;
        }
        self.status_message = None;
        self.step = Step::CustomPartitionSize;
    }

    /// Confirms the size that was typed for a custom partition; what it
    /// reads as is settled with the filesystem.
    pub fn confirm_custom_size(&mut self)
        ensures
            final(self)@ == (AppView {
                status_message: None,
                step: Step::CustomPartitionFs,
                ..old(self)@
            }),
    {
        self.status_message = None;
        self.step = Step::CustomPartitionFs;
    }

    fn refuse_size(&mut self)
        ensures
            final(self)@ == old(self)@.says(
                "Invalid size. Enter a whole number in GiB or leave empty for remaining space."@,
            ),
    {
        self.say("Invalid size. Enter a whole number in GiB or leave empty for remaining space.");
    }

    fn add_partition(&mut self, size_mb: Option<u64>)
        requires
            old(self).part_fs_cursor < 4,
            size_mb is Some ==> 1 + crate::disk::plan_extent(old(self)@.partitions) + size_mb->0
                <= u64::MAX,
        ensures
            final(self)@ == old(self)@.with_partition(size_mb),
    {
        let kinds = FsType::all();
        let fs = kinds[self.part_fs_cursor];
        let mount = text::trim(self.part_mount_input.as_str());
        let label = partition_label(mount.as_str());
        let part = plan_entry(label.as_str(), mount.as_str(), size_mb, fs);
        proof {
            lemma_plan_extent_push(self@.partitions, part@);
        }
        push_deep(&mut self.partitions, part);
        self.part_mount_input = String::new();
        self.part_size_input = String::new();
        self.part_fs_cursor = 0;
        self.step = Step::CustomPartitionAnother;
    }

    /// Confirms the filesystem under the cursor for a custom partition and
    /// adds the partition to the plan.
    pub fn confirm_custom_fs(&mut self)
        ensures
            final(self)@ == old(self)@.confirmed_custom_fs(),
    {
        if self.part_fs_cursor >= 4 {
            return ;
        }
        match read_size_input(self.part_size_input.as_str()) {
            SizeInput::Empty => {
                self.add_partition(None);
            },
            SizeInput::Gib(gib) => {
                if gib == 0 {
                    self.say("Size must be greater than 0.");
                    return ;
                }
                match fitting_size(&self.partitions, gib) {
                    Some(mib) => {
                        self.add_partition(Some(mib));
                    },
                    None => {
                        self.refuse_size();
                    },
                }
            },
            SizeInput::Invalid => {
                self.refuse_size();
            },
        }
    }

    /// Answers the question for another partition.
    pub fn confirm_custom_another(&mut self)
        ensures
            final(self)@ == old(self)@.confirmed_custom_another(),
    {
        if self.another_partition_cursor == 0 {
            self.step = Step::CustomPartitionMount;
        } else {
            self.step = Step::Confirm;
        }
        self.another_partition_cursor = 0;
    }

    /// Confirms the summary. The installation begins only where the plan
    /// is valid; any other plan is refused with a message, and the wizard
    /// stays at the summary.
    pub fn confirm_install(&mut self) -> (effect: Effect)
        ensures
            final(self)@ == old(self)@.confirmed_install(),
            effect == if old(self)@.install_allowed() {
                Effect::StartInstall
            } else {
                Effect::Nothing
            },
            !plan_valid(old(self)@.partitions) && old(self)@.step != Step::Installing ==> final(self)@.step
                != Step::Installing,
    {
        if self.confirm_cursor != 0 {
            self.step = Step::PartitionModeSelect;
            return Effect::Nothing;
        }
        if !plan_has_root(&self.partitions) {
            self.say("No root (/) partition defined. Please go back and add one.");
            return Effect::Nothing;
        }
        if !plan_has_single_root(&self.partitions) {
            self.say("More than one root (/) partition defined. Please go back and keep one.");
            return Effect::Nothing;
        }
        if !plan_has_open_size_last(&self.partitions) {
            self.say(
                "Only the last partition can use the remaining space. Please go back and set sizes.",
            );
            return Effect::Nothing;
        }
        self.step = Step::Installing;
        Effect::StartInstall
    }
}

} // verus!
