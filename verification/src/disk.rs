//! Disks and partition plans: what the operator chose, and the command
//! lines that carry it out.

use crate::lists::{empty_list, push_deep};
use crate::text;
use vstd::prelude::*;

verus! {

/// A filesystem kind that a partition can be formatted with.
#[derive(Debug, Clone, Copy, PartialEq, Eq, Structural)]
pub enum FsType {
    Fat32,
    Ext4,
    Btrfs,
    Swap,
}

impl FsType {
    /// The name the formatting tools know the filesystem by.
    pub open spec fn name(self) -> Seq<char> {
        match self {
            FsType::Fat32 => "vfat"@,
            FsType::Ext4 => "ext4"@,
            FsType::Btrfs => "btrfs"@,
            FsType::Swap => "swap"@,
        }
    }

    /// The name shown to the operator.
    pub open spec fn shown(self) -> Seq<char> {
        match self {
            FsType::Fat32 => "FAT32 (EFI)"@,
            FsType::Ext4 => "ext4"@,
            FsType::Btrfs => "Btrfs"@,
            FsType::Swap => "swap"@,
        }
    }

    /// The name the partitioning tool knows the filesystem by.
    pub open spec fn parted_name(self) -> Seq<char> {
        match self {
            FsType::Fat32 => "fat32"@,
            FsType::Ext4 => "ext4"@,
            FsType::Btrfs => "btrfs"@,
            FsType::Swap => "linux-swap"@,
        }
    }

    /// Every filesystem kind, in the order in which they are offered.
    pub open spec fn every() -> Seq<FsType> {
        seq![FsType::Fat32, FsType::Ext4, FsType::Btrfs, FsType::Swap]
    }

    pub fn as_str(&self) -> (s: &'static str)
        ensures
            s@ == self.name(),
    {
        match self {
            FsType::Fat32 => "vfat",
            FsType::Ext4 => "ext4",
            FsType::Btrfs => "btrfs",
            FsType::Swap => "swap",
        }
    }

    pub fn all() -> (kinds: Vec<FsType>)
        ensures
            kinds@ == FsType::every(),
    {
        let mut kinds: Vec<FsType> = Vec::new();
        kinds.push(FsType::Fat32);
        kinds.push(FsType::Ext4);
        kinds.push(FsType::Btrfs);
        kinds.push(FsType::Swap);
        assert(kinds@ =~= FsType::every());
        kinds
    }

    pub fn display_name(&self) -> (s: &'static str)
        ensures
            s@ == self.shown(),
    {
        match self {
            FsType::Fat32 => "FAT32 (EFI)",
            FsType::Ext4 => "ext4",
            FsType::Btrfs => "Btrfs",
            FsType::Swap => "swap",
        }
    }

    fn parted_flag(&self) -> (s: &'static str)
        ensures
            s@ == self.parted_name(),
    {
        match self {
            FsType::Fat32 => "fat32",
            FsType::Ext4 => "ext4",
            FsType::Btrfs => "btrfs",
            FsType::Swap => "linux-swap",
        }
    }
}

/// A disk found on the machine.
#[derive(Debug)]
pub struct BlockDevice {
    pub name: String,
    pub path: String,
    pub size_bytes: u64,
    pub size_human: String,
    pub model: String,
}

/// What a [`BlockDevice`] holds.
pub ghost struct BlockDeviceView {
    pub name: Seq<char>,
    pub path: Seq<char>,
    pub size_bytes: u64,
    pub size_human: Seq<char>,
    pub model: Seq<char>,
}

impl DeepView for BlockDevice {
    type V = BlockDeviceView;

    open spec fn deep_view(&self) -> BlockDeviceView {
        BlockDeviceView {
            name: self.name@,
            path: self.path@,
            size_bytes: self.size_bytes,
            size_human: self.size_human@,
            model: self.model@,
        }
    }
}

impl View for BlockDevice {
    type V = BlockDeviceView;

    open spec fn view(&self) -> BlockDeviceView {
        self.deep_view()
    }
}

impl Clone for BlockDevice {
    fn clone(&self) -> (r: Self)
        ensures
            r@ == self@,
    {
        BlockDevice {
            name: self.name.clone(),
            path: self.path.clone(),
            size_bytes: self.size_bytes,
            size_human: self.size_human.clone(),
            model: self.model.clone(),
        }
    }
}

/// One partition that the operator wants on the disk.
#[derive(Debug)]
pub struct PartitionPlan {
    /// The label shown to the operator and given to the partition.
    pub label: String,
    /// `/`, `/boot`, `swap` or another absolute path.
    pub mount_point: String,
    /// The size in MiB; `None` stands for the space that is left.
    pub size_mb: Option<u64>,
    pub fs_type: FsType,
}

/// What a [`PartitionPlan`] holds.
pub ghost struct PartitionPlanView {
    pub label: Seq<char>,
    pub mount_point: Seq<char>,
    pub size_mb: Option<u64>,
    pub fs_type: FsType,
}

impl DeepView for PartitionPlan {
    type V = PartitionPlanView;

    open spec fn deep_view(&self) -> PartitionPlanView {
        PartitionPlanView {
            label: self.label@,
            mount_point: self.mount_point@,
            size_mb: self.size_mb,
            fs_type: self.fs_type,
        }
    }
}

impl View for PartitionPlan {
    type V = PartitionPlanView;

    open spec fn view(&self) -> PartitionPlanView {
        self.deep_view()
    }
}

impl Clone for PartitionPlan {
    fn clone(&self) -> (r: Self)
        ensures
            r@ == self@,
    {
        PartitionPlan {
            label: self.label.clone(),
            mount_point: self.mount_point.clone(),
            size_mb: self.size_mb,
            fs_type: self.fs_type,
        }
    }
}

/// A copy of a plan.
pub fn clone_plan(plan: &Vec<PartitionPlan>) -> (r: Vec<PartitionPlan>)
    ensures
        r.deep_view() == plan.deep_view(),
{
    let r = plan.clone();
    assert(r.deep_view() =~= plan.deep_view());
    r
}


/// Whether an entry is mounted as the root of the installed system.
pub open spec fn is_root(part: PartitionPlanView) -> bool {
    part.mount_point == "/"@
}

/// Whether some entry of the plan is mounted at `/`.
pub open spec fn has_root(plan: Seq<PartitionPlanView>) -> bool {
    exists|i: int| 0 <= i < plan.len() && is_root(#[trigger] plan[i])
}

/// Whether at most one entry of the plan is mounted at `/`.
pub open spec fn single_root(plan: Seq<PartitionPlanView>) -> bool {
    forall|i: int, j: int|
        0 <= i < plan.len() && 0 <= j < plan.len() && is_root(#[trigger] plan[i]) && is_root(
            #[trigger] plan[j],
        ) ==> i == j
}

/// Whether no entry but the last leaves its size open: the space that is
/// left can only be taken at the end of the disk.
pub open spec fn open_size_last(plan: Seq<PartitionPlanView>) -> bool {
    forall|i: int| 0 <= i < plan.len() - 1 ==> (#[trigger] plan[i]).size_mb is Some
}

/// A plan that can be carried out as it stands: exactly one entry is mounted
/// at `/`, and only the last entry may leave its size open.
pub open spec fn plan_valid(plan: Seq<PartitionPlanView>) -> bool {
    &&& has_root(plan)
    &&& single_root(plan)
    &&& open_size_last(plan)
}

/// Decides [`single_root`].
pub fn plan_has_single_root(plan: &Vec<PartitionPlan>) -> (r: bool)
    ensures
        r == single_root(plan.deep_view()),
{
    let ghost all = plan.deep_view();
    let mut first: Option<usize> = None;
    let mut i: usize = 0;
    while i < plan.len()
        invariant
            i <= plan.len(),
            all == plan.deep_view(),
            match first {
                Some(f) => f < i && is_root(all[f as int]) && forall|k: int|
                    0 <= k < i && is_root(#[trigger] all[k]) ==> k == f,
                None => forall|k: int| 0 <= k < i ==> !is_root(#[trigger] all[k]),
            },
        decreases plan.len() - i,
    {
        if text::same_text(plan[i].mount_point.as_str(), "/") {
            assert(is_root(all[i as int]));
            match first {
                Some(f) => {
                    assert(is_root(all[f as int]) && f != i);
                    return false;
                },
                None => {
                    first = Some(i);
                },
            }
        }
        i += 1;
    }
    true
}

/// Decides [`open_size_last`].
pub fn plan_has_open_size_last(plan: &Vec<PartitionPlan>) -> (r: bool)
    ensures
        r == open_size_last(plan.deep_view()),
{
    let ghost all = plan.deep_view();
    if plan.len() == 0 {
        return true;
    }
    let last: usize = plan.len() - 1;
    let mut i: usize = 0;
    while i < last
        invariant
            i <= last,
            last == plan.len() - 1,
            all == plan.deep_view(),
            forall|k: int| 0 <= k < i ==> (#[trigger] all[k]).size_mb is Some,
        decreases last - i,
    {
        if plan[i].size_mb.is_none() {
            assert(all[i as int].size_mb is None);
            return false;
        }
        i += 1;
    }
    true
}

/// Decides [`plan_valid`].
pub fn plan_is_valid(plan: &Vec<PartitionPlan>) -> (r: bool)
    ensures
        r == plan_valid(plan.deep_view()),
{
    plan_has_root(plan) && plan_has_single_root(plan) && plan_has_open_size_last(plan)
}

/// Whether some entry of the plan is mounted at `/`.
pub fn plan_has_root(plan: &Vec<PartitionPlan>) -> (r: bool)
    ensures
        r == has_root(plan.deep_view()),
{
    let ghost all = plan.deep_view();
    let mut i: usize = 0;
    while i < plan.len()
        invariant
            i <= plan.len(),
            all == plan.deep_view(),
            forall|k: int| 0 <= k < i ==> !is_root(#[trigger] all[k]),
        decreases plan.len() - i,
    {
        if text::same_text(plan[i].mount_point.as_str(), "/") {
            assert(is_root(all[i as int]));
            return true;
        }
        i += 1;
    }
    false
}

/// The MiB that the sized entries of a plan take together.
pub open spec fn plan_extent(plan: Seq<PartitionPlanView>) -> nat
    decreases plan.len(),
{
    if plan.len() == 0 {
        0
    } else {
        plan_extent(plan.drop_last()) + match plan.last().size_mb {
            Some(size) => size as nat,
            None => 0,
        }
    }
}

/// Whether every partition boundary of the plan, counted in MiB from the
/// first MiB of the disk, is a `u64`.
pub open spec fn plan_fits(plan: Seq<PartitionPlanView>) -> bool {
    1 + plan_extent(plan) <= u64::MAX
}

/// The extent of a prefix is no larger than that of the whole plan.
pub proof fn lemma_plan_extent_prefix(plan: Seq<PartitionPlanView>, k: int)
    requires
        0 <= k <= plan.len(),
    ensures
        plan_extent(plan.take(k)) <= plan_extent(plan),
    decreases plan.len() - k,
{
    if k == plan.len() {
        assert(plan.take(k) == plan);
    } else {
        lemma_plan_extent_prefix(plan, k + 1);
        assert(plan.take(k + 1).drop_last() == plan.take(k));
    }
}

/// One more entry adds its size to the extent.
pub proof fn lemma_plan_extent_push(plan: Seq<PartitionPlanView>, part: PartitionPlanView)
    ensures
        plan_extent(plan.push(part)) == plan_extent(plan) + match part.size_mb {
            Some(size) => size as nat,
            None => 0,
        },
{
    assert(plan.push(part).drop_last() == plan);
}

/// The extent of a plan, where [`plan_fits`].
pub fn plan_size(plan: &Vec<PartitionPlan>) -> (r: Option<u64>)
    ensures
        match r {
            Some(total) => plan_fits(plan.deep_view()) && total == plan_extent(plan.deep_view()),
            None => !plan_fits(plan.deep_view()),
        },
{
    let ghost all = plan.deep_view();
    let mut total: u64 = 0;
    let mut i: usize = 0;
    while i < plan.len()
        invariant
            i <= plan.len(),
            all == plan.deep_view(),
            total == plan_extent(all.take(i as int)),
            total < u64::MAX,
        decreases plan.len() - i,
    {
        proof {
            assert(all.take(i + 1).drop_last() == all.take(i as int));
            lemma_plan_extent_prefix(all, i + 1);
        }
        match plan[i].size_mb {
            Some(size) => {
                if size >= u64::MAX - total {
                    return None;
                }
                total = total + size;
            },
            None => {},
        }
        i += 1;
    }
    assert(all.take(plan.len() as int) == all);
    Some(total)
}

/// The entry for the EFI system partition of a full-disk plan.
pub open spec fn efi_entry() -> PartitionPlanView {
    PartitionPlanView {
        label: "EFI"@,
        mount_point: "/boot"@,
        size_mb: Some(512u64),
        fs_type: FsType::Fat32,
    }
}

/// The entry for a swap partition of `size_mb` MiB.
pub open spec fn swap_entry(size_mb: u64) -> PartitionPlanView {
    PartitionPlanView {
        label: "swap"@,
        mount_point: "swap"@,
        size_mb: Some(size_mb),
        fs_type: FsType::Swap,
    }
}

/// The entry for a root partition that takes the space that is left.
pub open spec fn root_entry() -> PartitionPlanView {
    PartitionPlanView {
        label: "root"@,
        mount_point: "/"@,
        size_mb: None,
        fs_type: FsType::Ext4,
    }
}

/// The plan of full-disk mode for a swap size given in GiB: EFI, swap unless
/// its size is zero, and root.
pub open spec fn full_disk_layout(swap_gb: nat) -> Seq<PartitionPlanView> {
    if swap_gb == 0 {
        seq![efi_entry(), root_entry()]
    } else {
        seq![efi_entry(), swap_entry((swap_gb * 1024) as u64), root_entry()]
    }
}

/// The largest swap size in GiB that a full-disk plan can hold.
pub const MAX_SWAP_GIB: u64 = 18014398509481983;

/// Builds one plan entry.
pub fn plan_entry(label: &str, mount_point: &str, size_mb: Option<u64>, fs_type: FsType) -> (part:
    PartitionPlan)
    ensures
        part@ == (PartitionPlanView {
            label: label@,
            mount_point: mount_point@,
            size_mb,
            fs_type,
        }),
{
    PartitionPlan {
        label: String::from_str(label),
        mount_point: String::from_str(mount_point),
        size_mb,
        fs_type,
    }
}

/// Builds the plan of full-disk mode.
pub fn full_disk_plan(swap_gb: u64) -> (plan: Vec<PartitionPlan>)
    requires
        swap_gb <= MAX_SWAP_GIB,
    ensures
        plan.deep_view() == full_disk_layout(swap_gb as nat),
        plan_fits(plan.deep_view()),
{
    let mut plan: Vec<PartitionPlan> = Vec::new();
    plan.push(plan_entry("EFI", "/boot", Some(512), FsType::Fat32));
    if swap_gb > 0 {
        plan.push(plan_entry("swap", "swap", Some(swap_gb * 1024), FsType::Swap));
    }
    plan.push(plan_entry("root", "/", None, FsType::Ext4));
    proof {
        assert(plan.deep_view() =~= full_disk_layout(swap_gb as nat));
        lemma_full_disk_layout(swap_gb as nat);
    }
    plan
}

/// A full-disk plan has two entries, EFI and root, where the swap size is
/// zero, and three, EFI, swap of `swap_gb * 1024` MiB and root, where it is
/// not. Root is last and leaves its size open, and the plan is valid.
pub proof fn lemma_full_disk_layout(swap_gb: nat)
    ensures
        swap_gb == 0 ==> full_disk_layout(swap_gb) == seq![efi_entry(), root_entry()],
        swap_gb > 0 ==> full_disk_layout(swap_gb).len() == 3,
        swap_gb > 0 ==> full_disk_layout(swap_gb)[0] == efi_entry(),
        0 < swap_gb <= MAX_SWAP_GIB ==> full_disk_layout(swap_gb)[1].size_mb == Some(
            (swap_gb * 1024) as u64,
        ) && full_disk_layout(swap_gb)[1].size_mb->0 == swap_gb * 1024,
        swap_gb > 0 ==> full_disk_layout(swap_gb)[1].fs_type == FsType::Swap,
        full_disk_layout(swap_gb).last() == root_entry(),
        full_disk_layout(swap_gb).last().size_mb is None,
        plan_valid(full_disk_layout(swap_gb)),
        swap_gb <= MAX_SWAP_GIB ==> plan_fits(full_disk_layout(swap_gb)),
{
    let plan = full_disk_layout(swap_gb);
    reveal_strlit("/");
    reveal_strlit("/boot");
    reveal_strlit("swap");
    assert(is_root(plan.last()));
    assert(!is_root(efi_entry())) by {
        assert("/boot"@.len() != "/"@.len());
    }
    assert(!is_root(swap_entry((swap_gb * 1024) as u64))) by {
        assert("swap"@.len() != "/"@.len());
    }
    if swap_gb <= MAX_SWAP_GIB {
        reveal_with_fuel(plan_extent, 4);
        if swap_gb == 0 {
            assert(plan.drop_last() == seq![efi_entry()]);
            assert(plan.drop_last().drop_last() == Seq::<PartitionPlanView>::empty());
        } else {
            let swap = swap_entry((swap_gb * 1024) as u64);
            assert(plan.drop_last() == seq![efi_entry(), swap]);
            assert(plan.drop_last().drop_last() == seq![efi_entry()]);
            assert(plan.drop_last().drop_last().drop_last() == Seq::<
                PartitionPlanView,
            >::empty());
        }
    }
}


/// The label of a custom partition, derived from where it is mounted: the
/// three well-known mount points have names, any other path loses its
/// leading slashes and has the others turned into hyphens.
pub open spec fn label_of(mount: Seq<char>) -> Seq<char> {
    if mount == "/"@ {
        "root"@
    } else if mount == "/boot"@ {
        "EFI"@
    } else if mount == "swap"@ {
        "swap"@
    } else {
        text::replaced(text::without_leading(mount, '/'), '/', '-')
    }
}

/// Derives the label of a custom partition from its mount point.
pub fn partition_label(mount: &str) -> (label: String)
    ensures
        label@ == label_of(mount@),
{
    if text::same_text(mount, "/") {
        String::from_str("root")
    } else if text::same_text(mount, "/boot") {
        String::from_str("EFI")
    } else if text::same_text(mount, "swap") {
        String::from_str("swap")
    } else {
        let v = text::chars_of(mount);
        let from = text::leading_run(&v, '/');
        let mut label = String::new();
        let mut i: usize = from;
        let ghost rest = v@.skip(from as int);
        while i < v.len()
            invariant
                from <= i <= v.len(),
                rest == v@.skip(from as int),
                label@ == text::replaced(rest.take(i - from), '/', '-'),
            decreases v.len() - i,
        {
            let c = v[i];
            text::push_char(
                &mut label,
                if c == '/' {
                    '-'
                } else {
                    c
                },
            );
            i += 1;
            assert(text::replaced(rest.take(i - from), '/', '-') =~= text::replaced(
                rest.take(i - from - 1),
                '/',
                '-',
            ).push(
                if c == '/' {
                    '-'
                } else {
                    c
                },
            ));
        }
        assert(rest.take(i - from) == rest);
        label
    }
}

/// A program and the arguments it is to be run with.
#[derive(Debug)]
pub struct CommandLine {
    pub program: String,
    pub args: Vec<String>,
}

/// What a [`CommandLine`] holds.
pub ghost struct CommandLineView {
    pub program: Seq<char>,
    pub args: Seq<Seq<char>>,
}

impl DeepView for CommandLine {
    type V = CommandLineView;

    open spec fn deep_view(&self) -> CommandLineView {
        CommandLineView { program: self.program@, args: self.args.deep_view() }
    }
}

impl View for CommandLine {
    type V = CommandLineView;

    open spec fn view(&self) -> CommandLineView {
        self.deep_view()
    }
}

/// The command line that runs `program` with `args`.
pub open spec fn line(program: Seq<char>, args: Seq<Seq<char>>) -> CommandLineView {
    CommandLineView { program, args }
}

fn command(program: &str, args: Vec<String>) -> (c: CommandLine)
    ensures
        c@ == line(program@, args.deep_view()),
{
    CommandLine { program: String::from_str(program), args }
}

fn push_arg(args: &mut Vec<String>, a: &str)
    ensures
        final(args).deep_view() == old(args).deep_view().push(a@),
{
    push_deep(args, String::from_str(a));
}

/// Where partition `index` of a plan begins, in MiB: after the first MiB of
/// the disk and the sized entries before it.
pub open spec fn start_of(plan: Seq<PartitionPlanView>, index: int) -> nat {
    1 + plan_extent(plan.take(index))
}

/// `n` MiB as the partitioning tool reads it.
pub open spec fn mib(n: nat) -> Seq<char> {
    text::decimal(n) + "MiB"@
}

/// The command that creates one partition that begins at `start` MiB.
pub open spec fn mkpart_line(disk: Seq<char>, part: PartitionPlanView, start: nat)
    -> CommandLineView {
    line(
        "parted"@,
        seq![
            "-s"@,
            disk,
            "mkpart"@,
            part.label,
            part.fs_type.parted_name(),
            mib(start),
            match part.size_mb {
                Some(size) => mib(start + size as nat),
                None => "100%"@,
            },
        ],
    )
}

/// Whether an entry is the EFI system partition.
pub open spec fn is_esp(part: PartitionPlanView) -> bool {
    part.fs_type == FsType::Fat32 && part.mount_point == "/boot"@
}

/// The command that marks partition `number` as the EFI system partition.
pub open spec fn esp_line(disk: Seq<char>, number: nat) -> CommandLineView {
    line("parted"@, seq!["-s"@, disk, "set"@, text::decimal(number), "esp"@, "on"@])
}

/// The commands that create partition `index` of a plan.
pub open spec fn partition_lines_at(disk: Seq<char>, plan: Seq<PartitionPlanView>, index: int)
    -> Seq<CommandLineView> {
    let create = mkpart_line(disk, plan[index], start_of(plan, index));
    if is_esp(plan[index]) {
        seq![create, esp_line(disk, (index + 1) as nat)]
    } else {
        seq![create]
    }
}

/// The commands that wipe the disk, give it a GPT label and create the
/// first `count` partitions of a plan.
pub open spec fn partition_lines_upto(disk: Seq<char>, plan: Seq<PartitionPlanView>, count: int)
    -> Seq<CommandLineView>
    decreases count,
{
    if count <= 0 {
        seq![
            line("wipefs"@, seq!["-a"@, "-f"@, disk]),
            line("parted"@, seq!["-s"@, disk, "mklabel"@, "gpt"@]),
        ]
    } else {
        partition_lines_upto(disk, plan, count - 1) + partition_lines_at(disk, plan, count - 1)
    }
}

/// The commands that wipe the disk, give it a GPT label and create the
/// partitions of a plan one after the other.
pub open spec fn partition_lines(disk: Seq<char>, plan: Seq<PartitionPlanView>) -> Seq<
    CommandLineView,
> {
    partition_lines_upto(disk, plan, plan.len() as int)
}

fn mib_string(n: u64) -> (s: String)
    ensures
        s@ == mib(n as nat),
{
    let mut s = text::decimal_string(n);
    s.append("MiB");
    s
}

/// The commands that wipe `disk`, give it a GPT label and create the
/// partitions of `partitions`, to be run in order until one fails.
pub fn partition_disk(disk: &str, partitions: &Vec<PartitionPlan>) -> (lines: Vec<CommandLine>)
    requires
        plan_fits(partitions.deep_view()),
    ensures
        lines.deep_view() == partition_lines(disk@, partitions.deep_view()),
{
    let ghost plan = partitions.deep_view();
    let mut lines: Vec<CommandLine> = empty_list();
    let mut args: Vec<String> = empty_list();
    push_arg(&mut args, "-a");
    push_arg(&mut args, "-f");
    push_arg(&mut args, disk);
    assert(args.deep_view() =~= seq!["-a"@, "-f"@, disk@]);
    push_deep(&mut lines, command("wipefs", args));
    let mut args: Vec<String> = empty_list();
    push_arg(&mut args, "-s");
    push_arg(&mut args, disk);
    push_arg(&mut args, "mklabel");
    push_arg(&mut args, "gpt");
    assert(args.deep_view() =~= seq!["-s"@, disk@, "mklabel"@, "gpt"@]);
    push_deep(&mut lines, command("parted", args));
    let mut start_mb: u64 = 1;
    let mut i: usize = 0;
    proof {
        assert(plan.take(0) == Seq::<PartitionPlanView>::empty());
        assert(lines.deep_view() =~= partition_lines_upto(disk@, plan, 0));
    }
    while i < partitions.len()
        invariant
            i <= partitions.len(),
            plan == partitions.deep_view(),
            plan_fits(plan),
            start_mb == start_of(plan, i as int),
            lines.deep_view() == partition_lines_upto(disk@, plan, i as int),
        decreases partitions.len() - i,
    {
        let part = &partitions[i];
        proof {
            assert(plan.take(i + 1).drop_last() == plan.take(i as int));
            lemma_plan_extent_prefix(plan, i + 1);
            assert(plan[i as int] == part@);
        }
        let end = match part.size_mb {
            Some(size) => mib_string(start_mb + size),
            None => String::from_str("100%"),
        };
        let begin = mib_string(start_mb);
        let mut args: Vec<String> = empty_list();
        push_arg(&mut args, "-s");
        push_arg(&mut args, disk);
        push_arg(&mut args, "mkpart");
        push_arg(&mut args, part.label.as_str());
        push_arg(&mut args, part.fs_type.parted_flag());
        push_arg(&mut args, begin.as_str());
        push_arg(&mut args, end.as_str());
        assert(args.deep_view() =~= seq![
            "-s"@,
            disk@,
            "mkpart"@,
            part.label@,
            part.fs_type.parted_name(),
            begin@,
            end@,
        ]);
        let ghost before = lines.deep_view();
        let create = command("parted", args);
        proof {
            let want = mkpart_line(disk@, plan[i as int], start_of(plan, i as int));
            assert(end@ == match part.size_mb {
                Some(size) => mib((start_mb + size) as nat),
                None => "100%"@,
            });
            assert(begin@ == mib(start_of(plan, i as int)));
            assert(create@.program == want.program);
            assert(create@.args =~= want.args);
        }
        push_deep(&mut lines, create);
        if part.fs_type == FsType::Fat32 && text::same_text(part.mount_point.as_str(), "/boot") {
            let number = text::decimal_string((i + 1) as u64);
            let mut args: Vec<String> = empty_list();
            push_arg(&mut args, "-s");
            push_arg(&mut args, disk);
            push_arg(&mut args, "set");
            push_arg(&mut args, number.as_str());
            push_arg(&mut args, "esp");
            push_arg(&mut args, "on");
            assert(args.deep_view() =~= seq!["-s"@, disk@, "set"@, number@, "esp"@, "on"@]);
            push_deep(&mut lines, command("parted", args));
        }
        proof {
            assert(lines.deep_view() =~= before + partition_lines_at(disk@, plan, i as int));
        }
        match part.size_mb {
            Some(size) => {
                start_mb = start_mb + size;
            },
            None => {},
        }
        i += 1;
    }
    lines
}


fn run1(program: &str, a: &str) -> (c: CommandLine)
    ensures
        c@ == line(program@, seq![a@]),
{
    let mut args: Vec<String> = empty_list();
    push_arg(&mut args, a);
    assert(args.deep_view() =~= seq![a@]);
    command(program, args)
}

fn run2(program: &str, a: &str, b: &str) -> (c: CommandLine)
    ensures
        c@ == line(program@, seq![a@, b@]),
{
    let mut args: Vec<String> = empty_list();
    push_arg(&mut args, a);
    push_arg(&mut args, b);
    assert(args.deep_view() =~= seq![a@, b@]);
    command(program, args)
}

fn run3(program: &str, a: &str, b: &str, c: &str) -> (r: CommandLine)
    ensures
        r@ == line(program@, seq![a@, b@, c@]),
{
    let mut args: Vec<String> = empty_list();
    push_arg(&mut args, a);
    push_arg(&mut args, b);
    push_arg(&mut args, c);
    assert(args.deep_view() =~= seq![a@, b@, c@]);
    command(program, args)
}

/// What the device of a partition is named by, before its number: the disk,
/// followed by `p` where the disk's own name ends in a number.
pub open spec fn partition_prefix(disk: Seq<char>) -> Seq<char> {
    if text::has_infix(disk, "nvme"@) || text::has_infix(disk, "mmcblk"@) {
        disk + "p"@
    } else {
        disk
    }
}

/// The device of partition `index` of the disk, counted from zero.
pub open spec fn partition_device(disk: Seq<char>, index: int) -> Seq<char> {
    partition_prefix(disk) + text::decimal((index + 1) as nat)
}

/// The four passes over a plan that format and mount it.
#[derive(Debug, Clone, Copy, PartialEq, Eq, Structural)]
pub enum MountPass {
    /// Every partition is formatted.
    Format,
    /// Root is mounted as the target's root, under which the other mount
    /// points lie.
    Root,
    /// Swap is switched on.
    Swap,
    /// The other partitions are mounted below the target's root.
    Others,
}

/// Whether a partition is mounted as the target's root: it is mounted at
/// `/` and is no swap.
pub open spec fn mounts_root(part: PartitionPlanView) -> bool {
    part.fs_type != FsType::Swap && is_root(part)
}

/// Whether a partition is mounted below the target's root: it is neither
/// swap nor root.
pub open spec fn mounts_below(part: PartitionPlanView) -> bool {
    part.fs_type != FsType::Swap && !is_root(part)
}

/// The command that formats one partition.
pub open spec fn format_line(part: PartitionPlanView, device: Seq<char>) -> CommandLineView {
    match part.fs_type {
        FsType::Fat32 => line("mkfs.fat"@, seq!["-F"@, "32"@, device]),
        FsType::Ext4 => line("mkfs.ext4"@, seq!["-F"@, device]),
        FsType::Btrfs => line("mkfs.btrfs"@, seq!["-f"@, device]),
        FsType::Swap => line("mkswap"@, seq![device]),
    }
}

/// The commands of one pass for one partition: the format pass formats it,
/// the root pass mounts it where it is root, the swap pass switches it on
/// where it is swap, and the last pass makes its mount point below the
/// target's root and mounts it there where it is neither.
pub open spec fn pass_lines(pass: MountPass, part: PartitionPlanView, device: Seq<char>) -> Seq<
    CommandLineView,
> {
    match pass {
        MountPass::Format => seq![format_line(part, device)],
        MountPass::Root => if mounts_root(part) {
            seq![line("mount"@, seq![device, "/mnt"@])]
        } else {
            Seq::empty()
        },
        MountPass::Swap => if part.fs_type == FsType::Swap {
            seq![line("swapon"@, seq![device])]
        } else {
            Seq::empty()
        },
        MountPass::Others => if mounts_below(part) {
            seq![
                line("mkdir"@, seq!["-p"@, "/mnt"@ + part.mount_point]),
                line("mount"@, seq![device, "/mnt"@ + part.mount_point]),
            ]
        } else {
            Seq::empty()
        },
    }
}

/// The commands of one pass over the first `count` partitions, in plan
/// order.
pub open spec fn pass_upto(
    pass: MountPass,
    disk: Seq<char>,
    plan: Seq<PartitionPlanView>,
    count: int,
) -> Seq<CommandLineView>
    decreases count,
{
    if count <= 0 {
        Seq::empty()
    } else {
        pass_upto(pass, disk, plan, count - 1) + pass_lines(
            pass,
            plan[count - 1],
            partition_device(disk, count - 1),
        )
    }
}

/// The commands of one pass over a plan.
pub open spec fn pass_over(pass: MountPass, disk: Seq<char>, plan: Seq<PartitionPlanView>) -> Seq<
    CommandLineView,
> {
    pass_upto(pass, disk, plan, plan.len() as int)
}

/// The commands that format and mount a plan, in four passes, each in plan
/// order: every partition is formatted; root is mounted first, which makes
/// the root that the other mount points lie under; then swap is switched
/// on; then the other partitions are mounted below root.
pub open spec fn format_and_mount_lines(disk: Seq<char>, plan: Seq<PartitionPlanView>) -> Seq<
    CommandLineView,
> {
    pass_over(MountPass::Format, disk, plan) + pass_over(MountPass::Root, disk, plan) + pass_over(
        MountPass::Swap,
        disk,
        plan,
    ) + pass_over(MountPass::Others, disk, plan)
}

fn device_prefix(disk: &str) -> (prefix: String)
    ensures
        prefix@ == partition_prefix(disk@),
{
    let v = text::chars_of(disk);
    let nvme = text::chars_of("nvme");
    let mmcblk = text::chars_of("mmcblk");
    let mut prefix = String::from_str(disk);
    if text::contains(&v, &nvme) || text::contains(&v, &mmcblk) {
        prefix.append("p");
    }
    prefix
}

fn device_name(prefix: &String, index: usize, Ghost(disk): Ghost<Seq<char>>) -> (device: String)
    requires
        prefix@ == partition_prefix(disk),
        index < usize::MAX,
    ensures
        device@ == partition_device(disk, index as int),
{
    let mut device = prefix.clone();
    text::push_decimal(&mut device, (index + 1) as u64);
    device
}

fn push_pass_lines(lines: &mut Vec<CommandLine>, pass: MountPass, part: &PartitionPlan, dev: &str)
    ensures
        final(lines).deep_view() == old(lines).deep_view() + pass_lines(pass, part@, dev@),
{
    let ghost before = lines.deep_view();
    let swap = part.fs_type == FsType::Swap;
    let root = text::same_text(part.mount_point.as_str(), "/");
    match pass {
        MountPass::Format => {
            match part.fs_type {
                FsType::Fat32 => {
                    push_deep(lines, run3("mkfs.fat", "-F", "32", dev));
                },
                FsType::Ext4 => {
                    push_deep(lines, run2("mkfs.ext4", "-F", dev));
                },
                FsType::Btrfs => {
                    push_deep(lines, run2("mkfs.btrfs", "-f", dev));
                },
                FsType::Swap => {
                    push_deep(lines, run1("mkswap", dev));
                },
            }
        },
        MountPass::Root => {
            if !swap && root {
                push_deep(lines, run2("mount", dev, "/mnt"));
            }
        },
        MountPass::Swap => {
            if swap {
                push_deep(lines, run1("swapon", dev));
            }
        },
        MountPass::Others => {
            if !swap && !root {
                let mut target = String::from_str("/mnt");
                target.append(part.mount_point.as_str());
                push_deep(lines, run2("mkdir", "-p", target.as_str()));
                push_deep(lines, run2("mount", dev, target.as_str()));
            }
        },
    }
    assert(lines.deep_view() =~= before + pass_lines(pass, part@, dev@));
}

fn push_pass(
    lines: &mut Vec<CommandLine>,
    pass: MountPass,
    disk: &str,
    prefix: &String,
    partitions: &Vec<PartitionPlan>,
)
    requires
        prefix@ == partition_prefix(disk@),
    ensures
        final(lines).deep_view() == old(lines).deep_view() + pass_over(
            pass,
            disk@,
            partitions.deep_view(),
        ),
{
    let ghost plan = partitions.deep_view();
    let ghost before = lines.deep_view();
    let mut i: usize = 0;
    assert(lines.deep_view() =~= before + pass_upto(pass, disk@, plan, 0));
    while i < partitions.len()
        invariant
            i <= partitions.len(),
            plan == partitions.deep_view(),
            prefix@ == partition_prefix(disk@),
            lines.deep_view() == before + pass_upto(pass, disk@, plan, i as int),
        decreases partitions.len() - i,
    {
        let part = &partitions[i];
        let device = device_name(prefix, i, Ghost(disk@));
        let ghost was = lines.deep_view();
        assert(plan[i as int] == part@);
        push_pass_lines(lines, pass, part, device.as_str());
        i += 1;
        assert(lines.deep_view() =~= before + pass_upto(pass, disk@, plan, i as int));
    }
}

/// The commands that format the partitions of `partitions` on `disk` and
/// mount them below `/mnt`, to be run in order until one fails: every
/// partition is formatted, then root is mounted, then swap is switched on,
/// then the other partitions are mounted, each time in plan order.
pub fn format_and_mount(disk: &str, partitions: &Vec<PartitionPlan>) -> (lines: Vec<CommandLine>)
    ensures
        lines.deep_view() == format_and_mount_lines(disk@, partitions.deep_view()),
{
    let prefix = device_prefix(disk);
    let mut lines: Vec<CommandLine> = empty_list();
    push_pass(&mut lines, MountPass::Format, disk, &prefix, partitions);
    assert(lines.deep_view() =~= pass_over(MountPass::Format, disk@, partitions.deep_view()));
    push_pass(&mut lines, MountPass::Root, disk, &prefix, partitions);
    push_pass(&mut lines, MountPass::Swap, disk, &prefix, partitions);
    push_pass(&mut lines, MountPass::Others, disk, &prefix, partitions);
    lines
}

/// The commands that copy the working tree at `base_path` to where the
/// installed system keeps its configuration.
pub open spec fn copy_repo_lines(base_path: Seq<char>) -> Seq<CommandLineView> {
    seq![
        line("mkdir"@, seq!["-p"@, "/mnt/etc/nixos"@]),
        line("cp"@, seq!["-a"@, base_path + "/."@, "/mnt/etc/nixos/"@]),
    ]
}

/// The commands that copy the contents of the working tree at `base_path`,
/// not the directory itself, into the installed system, to be run in order
/// until one fails.
pub fn copy_repo_to_target(base_path: &str) -> (lines: Vec<CommandLine>)
    ensures
        lines.deep_view() == copy_repo_lines(base_path@),
{
    let mut source = String::from_str(base_path);
    source.append("/.");
    let mut lines: Vec<CommandLine> = empty_list();
    push_deep(&mut lines, run2("mkdir", "-p", "/mnt/etc/nixos"));
    push_deep(&mut lines, run3("cp", "-a", source.as_str(), "/mnt/etc/nixos/"));
    assert(lines.deep_view() =~= copy_repo_lines(base_path@));
    lines
}

/// The command that restarts the machine.
pub fn reboot() -> (c: CommandLine)
    ensures
        c@ == line("reboot"@, Seq::empty()),
{
    command("reboot", empty_list())
}


/// What a size typed by the operator reads as.
#[derive(Debug, Clone, Copy, PartialEq, Eq, Structural)]
pub enum SizeInput {
    /// Nothing was typed.
    Empty,
    /// A whole number of GiB.
    Gib(u64),
    /// Something that is no whole number, or one too large to count.
    Invalid,
}

/// What a size typed by the operator reads as: white space around it does
/// not count, nothing stands for no size, and anything else has to be a
/// whole number, taken as GiB.
pub open spec fn size_input_of(input: Seq<char>) -> SizeInput {
    let t = text::trimmed(input);
    if t.len() == 0 {
        SizeInput::Empty
    } else {
        match text::parsed_u64(t) {
            Some(gib) => SizeInput::Gib(gib),
            None => SizeInput::Invalid,
        }
    }
}

/// Reads a size typed by the operator.
pub fn read_size_input(input: &str) -> (r: SizeInput)
    ensures
        r == size_input_of(input@),
{
    let t = text::trim(input);
    if t.as_str().is_empty() {
        SizeInput::Empty
    } else {
        match text::parse_u64(t.as_str()) {
            Some(gib) => SizeInput::Gib(gib),
            None => SizeInput::Invalid,
        }
    }
}

/// Whether a partition of `gib` GiB can be added to a plan without a
/// boundary leaving the range of `u64` MiB.
pub open spec fn size_fits(plan: Seq<PartitionPlanView>, gib: u64) -> bool {
    1 + plan_extent(plan) + gib * 1024 <= u64::MAX
}

/// The size in MiB of a partition of `gib` GiB, where it can be added to
/// the plan.
pub fn fitting_size(plan: &Vec<PartitionPlan>, gib: u64) -> (r: Option<u64>)
    ensures
        match r {
            Some(mib) => size_fits(plan.deep_view(), gib) && mib == gib * 1024,
            None => !size_fits(plan.deep_view(), gib),
        },
{
    match plan_size(plan) {
        Some(total) => {
            if gib > (u64::MAX - 1 - total) / 1024 {
                None
            } else {
                Some(gib * 1024)
            }
        },
        None => None,
    }
}

} // verus!
