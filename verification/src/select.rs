//! The graphics backend's pure decisions: which modifier to fixate, which
//! queue to record on, whether command resources can be reused, and how the
//! candidate-format catalog is assembled from what the GPU supports.

use vstd::prelude::*;

use crate::format::{EnumFormatInfo, EnumFormatInfoView, Format, TransferFunction};
use crate::negotiate::{catalog_view, catalog_wf};

verus! {

/// One DRM modifier the GPU supports for a format, with the plane count of
/// its layout.
#[derive(Clone, Copy, Debug, PartialEq, Eq, Structural)]
pub struct DrmModifierProps {
    pub modifier: u64,
    pub plane_count: u32,
}

/// What one device queue can do.
#[derive(Clone, Copy, Debug, PartialEq, Eq, Structural)]
pub struct QueueCaps {
    pub graphics: bool,
    pub transfer: bool,
}

/// The command-recording resources of one pool generation.
#[derive(Clone, Copy, Debug, PartialEq, Eq, Structural)]
pub struct CommandResources {
    pub queue: u64,
    pub buffer_count: usize,
}

/// A pixel format as the GPU and the bus both know it.
#[derive(Clone, Copy, Debug, PartialEq, Eq, Structural)]
pub struct VkFormatInfo {
    pub vk_format: u32,
    pub format: Format,
    pub transfer: TransferFunction,
}

/// One format with the modifiers the GPU supports for it, as queried from
/// the device.
#[derive(Clone, Debug)]
pub struct FormatModifiers {
    pub format: Format,
    pub modifiers: Vec<u64>,
}

/// The first supported modifier the consumer also offered, if any.
pub open spec fn spec_choose_modifier(
    supported: Seq<DrmModifierProps>,
    offered: Seq<u64>,
) -> Option<DrmModifierProps>
    decreases supported.len(),
{
    if supported.len() == 0 {
        None
    } else if offered.contains(supported[0].modifier) {
        Some(supported[0])
    } else {
        spec_choose_modifier(supported.drop_first(), offered)
    }
}

/// Whether `v` holds `x`.
fn contains_token(v: &Vec<u64>, x: u64) -> (r: bool)
    ensures
        r == v@.contains(x),
{
    let mut i: usize = 0;
    while i < v.len()
        invariant
            i <= v@.len(),
            forall|j: int| 0 <= j < i ==> v@[j] != x,
        decreases v@.len() - i,
    {
        if v[i] == x {
            return true;
        }
        i = i + 1;
    }
    proof {
        if v@.contains(x) {
            let k = choose|k: int| 0 <= k < v@.len() && v@[k] == x;
            assert(false);
        }
    }
    false
}

/// Picks the modifier to fixate: the first of the GPU's supported layouts
/// that the consumer offered, exactly as [`spec_choose_modifier`] states;
/// nothing if the two sides have no layout in common.
pub fn choose_modifier(supported: &Vec<DrmModifierProps>, offered: &Vec<u64>) -> (r: Option<
    DrmModifierProps,
>)
    ensures
        r == spec_choose_modifier(supported@, offered@),
{
    proof {
        assert(supported@.subrange(0, supported@.len() as int) =~= supported@);
    }
    let mut i: usize = 0;
    while i < supported.len()
        invariant
            i <= supported@.len(),
            spec_choose_modifier(supported@, offered@) == spec_choose_modifier(
                supported@.subrange(i as int, supported@.len() as int),
                offered@,
            ),
        decreases supported@.len() - i,
    {
        proof {
            let suffix = supported@.subrange(i as int, supported@.len() as int);
            assert(suffix[0] == supported@[i as int]);
            assert(suffix.drop_first() =~= supported@.subrange(
                i as int + 1,
                supported@.len() as int,
            ));
        }
        if contains_token(offered, supported[i].modifier) {
            return Some(supported[i]);
        }
        i = i + 1;
    }
    proof {
        assert(supported@.subrange(i as int, supported@.len() as int)
            =~= Seq::<DrmModifierProps>::empty());
    }
    None
}

/// Picks the queue to record capture commands on, mirroring the backend's
/// preference order.  A converting blit needs a graphics queue: the first
/// one wins.  A same-format copy prefers a transfer-only queue — the first
/// such queue wins — and otherwise settles for the last queue that can
/// transfer at all.
pub fn choose_queue(queues: &Vec<QueueCaps>, need_graphics: bool) -> (r: Option<usize>)
    ensures
        need_graphics ==> match r {
            Some(i) => i < queues@.len() && queues@[i as int].graphics && (forall|j: int|
                0 <= j < i ==> !queues@[j].graphics),
            None => forall|j: int| 0 <= j < queues@.len() ==> !queues@[j].graphics,
        },
        !need_graphics ==> match r {
            Some(i) => i < queues@.len() && queues@[i as int].transfer && (if !queues@[
                i as int
            ].graphics {
                forall|j: int| 0 <= j < i ==> !(queues@[j].transfer && !queues@[j].graphics)
            } else {
                (forall|j: int|
                    0 <= j < queues@.len() ==> !(queues@[j].transfer && !queues@[j].graphics))
                    && (forall|j: int| i < j < queues@.len() ==> !queues@[j].transfer)
            }),
            None => forall|j: int| 0 <= j < queues@.len() ==> !queues@[j].transfer,
        },
{
    let mut candidate: Option<usize> = None;
    let mut i: usize = 0;
    while i < queues.len()
        invariant
            i <= queues@.len(),
            need_graphics ==> candidate is None,
            need_graphics ==> forall|j: int| 0 <= j < i ==> !queues@[j].graphics,
            !need_graphics ==> match candidate {
                Some(c) => c < i && queues@[c as int].transfer && queues@[c as int].graphics
                    && (forall|j: int| c < j < i ==> !queues@[j].transfer),
                None => forall|j: int| 0 <= j < i ==> !queues@[j].transfer,
            },
            !need_graphics ==> forall|j: int|
                0 <= j < i ==> !(queues@[j].transfer && !queues@[j].graphics),
        decreases queues@.len() - i,
    {
        let caps = queues[i];
        if need_graphics {
            if caps.graphics {
                return Some(i);
            }
        } else if caps.transfer {
            candidate = Some(i);
            if !caps.graphics {
                return Some(i);
            }
        }
        i = i + 1;
    }
    candidate
}

/// Whether the command pool and buffers of the previous generation can be
/// kept: they must sit on the same queue and cover every source image.
pub fn should_reuse_commands(
    previous: &Option<CommandResources>,
    queue: u64,
    image_count: usize,
) -> (r: bool)
    ensures
        r == (previous matches Some(p) && p.queue == queue && p.buffer_count >= image_count),
{
    match previous {
        Some(p) => p.queue == queue && p.buffer_count >= image_count,
        None => false,
    }
}

/// The index of the first zero in the sequence, or -1.
pub open spec fn first_zero_index(s: Seq<u64>) -> int
    decreases s.len(),
{
    if s.len() == 0 {
        -1
    } else if s[0] == 0 {
        0
    } else {
        let rest = first_zero_index(s.drop_first());
        if rest == -1 {
            -1
        } else {
            rest + 1
        }
    }
}

/// The index [`first_zero_index`] names really is the first zero.
pub proof fn lemma_first_zero_index(s: Seq<u64>)
    ensures
        first_zero_index(s) == -1 ==> forall|j: int| 0 <= j < s.len() ==> s[j] != 0,
        first_zero_index(s) != -1 ==> 0 <= first_zero_index(s) < s.len() && s[first_zero_index(s)]
            == 0 && (forall|j: int| 0 <= j < first_zero_index(s) ==> s[j] != 0),
    decreases s.len(),
{
    if s.len() > 0 && s[0] != 0 {
        lemma_first_zero_index(s.drop_first());
        assert forall|j: int| 1 <= j < s.len() implies s[j] == s.drop_first()[j - 1] by {}
    }
}

/// A modifier list with the implicit layout (modifier zero) moved to the
/// front, where it becomes the advertised default; nothing else moves.
pub open spec fn spec_order_modifiers(s: Seq<u64>) -> Seq<u64> {
    let i = first_zero_index(s);
    if i == -1 {
        s
    } else {
        seq![0u64].add(s.subrange(0, i)).add(s.subrange(i + 1, s.len() as int))
    }
}

/// Finds the first zero in the list, as [`first_zero_index`] names it.
fn find_zero(v: &Vec<u64>) -> (r: Option<usize>)
    ensures
        match r {
            Some(i) => i as int == first_zero_index(v@),
            None => first_zero_index(v@) == -1,
        },
{
    let mut i: usize = 0;
    while i < v.len()
        invariant
            i <= v@.len(),
            forall|j: int| 0 <= j < i ==> v@[j] != 0,
        decreases v@.len() - i,
    {
        if v[i] == 0 {
            proof {
                lemma_first_zero_index(v@);
            }
            return Some(i);
        }
        i = i + 1;
    }
    proof {
        lemma_first_zero_index(v@);
        if first_zero_index(v@) != -1 {
            assert(v@[first_zero_index(v@)] == 0);
        }
    }
    None
}

/// Moves the first zero modifier to the front, as
/// [`spec_order_modifiers`] states.
pub fn order_modifiers(modifiers: &Vec<u64>) -> (r: Vec<u64>)
    ensures
        r@ == spec_order_modifiers(modifiers@),
{
    match find_zero(modifiers) {
        None => {
            let r = crate::stream_core::copy_tokens(modifiers);
            r
        },
        Some(z) => {
            proof {
                lemma_first_zero_index(modifiers@);
            }
            let mut r = crate::stream_core::copy_tokens(modifiers);
            let _zero = r.remove(z);
            r.insert(0, 0);
            proof {
                let fz = first_zero_index(modifiers@);
                assert(fz == z as int);
                assert(r@ =~= seq![0u64].add(modifiers@.subrange(0, fz)).add(
                    modifiers@.subrange(fz + 1, modifiers@.len() as int),
                ));
            }
            r
        },
    }
}

} // verus!

verus! {

/// Spec-level value of a [`FormatModifiers`].
#[verifier::ext_equal]
pub struct FormatModifiersView {
    pub format: Format,
    pub modifiers: Seq<u64>,
}

impl View for FormatModifiers {
    type V = FormatModifiersView;

    open spec fn view(&self) -> FormatModifiersView {
        FormatModifiersView { format: self.format, modifiers: self.modifiers@ }
    }
}

/// The formats of the table worth offering beside a source with this
/// transfer function, in table order: the transfer functions must match,
/// and the source's own GPU format — when one is excluded — is not
/// repeated.
pub open spec fn spec_matching_formats(
    table: Seq<VkFormatInfo>,
    transfer: TransferFunction,
    exclude_vk: Option<u32>,
) -> Seq<VkFormatInfo>
    decreases table.len(),
{
    if table.len() == 0 {
        Seq::empty()
    } else {
        let prev = spec_matching_formats(table.drop_last(), transfer, exclude_vk);
        let last = table.last();
        if last.transfer == transfer && (match exclude_vk {
            Some(v) => last.vk_format != v,
            None => true,
        }) {
            prev.push(last)
        } else {
            prev
        }
    }
}

/// The candidate formats advertised for a source format: every format with
/// the source's transfer function when the source format is unknown to the
/// bus, and otherwise the source format first, followed by the other
/// matching formats.
pub open spec fn spec_candidate_formats(
    table: Seq<VkFormatInfo>,
    src: VkFormatInfo,
) -> Seq<VkFormatInfo> {
    if src.format == Format::Unknown {
        spec_matching_formats(table, src.transfer, None)
    } else {
        seq![src].add(spec_matching_formats(table, src.transfer, Some(src.vk_format)))
    }
}

/// Collects the candidate formats for a source format, as
/// [`spec_candidate_formats`] states.
pub fn candidate_formats(table: &Vec<VkFormatInfo>, src: VkFormatInfo) -> (r: Vec<VkFormatInfo>)
    ensures
        r@ == spec_candidate_formats(table@, src),
{
    let src_known = !matches!(src.format, Format::Unknown);
    let mut r: Vec<VkFormatInfo> = Vec::new();
    if src_known {
        r.push(src);
    }
    let mut i: usize = 0;
    while i < table.len()
        invariant
            i <= table@.len(),
            src_known == (src.format != Format::Unknown),
            r@ == if src_known {
                seq![src].add(
                    spec_matching_formats(
                        table@.subrange(0, i as int),
                        src.transfer,
                        Some(src.vk_format),
                    ),
                )
            } else {
                spec_matching_formats(table@.subrange(0, i as int), src.transfer, None)
            },
        decreases table@.len() - i,
    {
        let entry = table[i];
        let matches_transfer = entry.transfer == src.transfer;
        let excluded = src_known && entry.vk_format == src.vk_format;
        if matches_transfer && !excluded {
            r.push(entry);
        }
        proof {
            let prefix = table@.subrange(0, i as int);
            let prefix1 = table@.subrange(0, i as int + 1);
            assert(prefix1.drop_last() =~= prefix);
            assert(prefix1.last() == table@[i as int]);
        }
        i = i + 1;
    }
    proof {
        assert(table@.subrange(0, table@.len() as int) =~= table@);
    }
    r
}

/// The index of the first group advertising exactly this modifier list, or
/// -1.
pub open spec fn group_index(groups: Seq<EnumFormatInfoView>, modifiers: Seq<u64>) -> int
    decreases groups.len(),
{
    if groups.len() == 0 {
        -1
    } else if groups[0].modifiers == modifiers {
        0
    } else {
        let rest = group_index(groups.drop_first(), modifiers);
        if rest == -1 {
            -1
        } else {
            rest + 1
        }
    }
}

/// The index [`group_index`] names really is the first group with this
/// modifier list.
pub proof fn lemma_group_index(groups: Seq<EnumFormatInfoView>, modifiers: Seq<u64>)
    ensures
        group_index(groups, modifiers) == -1 ==> forall|j: int|
            0 <= j < groups.len() ==> groups[j].modifiers != modifiers,
        group_index(groups, modifiers) != -1 ==> 0 <= group_index(groups, modifiers)
            < groups.len() && groups[group_index(groups, modifiers)].modifiers == modifiers && (
        forall|j: int| 0 <= j < group_index(groups, modifiers) ==> groups[j].modifiers != modifiers),
    decreases groups.len(),
{
    if groups.len() > 0 && groups[0].modifiers != modifiers {
        lemma_group_index(groups.drop_first(), modifiers);
        assert forall|j: int| 1 <= j < groups.len() implies groups[j]
            == groups.drop_first()[j - 1] by {}
    }
}

/// One candidate folded into the catalog: a format without modifiers is
/// not advertised; otherwise its ordered modifier list either joins the
/// first group that advertises exactly that list, or founds a new group.
pub open spec fn spec_add_candidate(
    acc: Seq<EnumFormatInfoView>,
    format: Format,
    modifiers: Seq<u64>,
) -> Seq<EnumFormatInfoView> {
    if modifiers.len() == 0 {
        acc
    } else {
        let ordered = spec_order_modifiers(modifiers);
        let gi = group_index(acc, ordered);
        if gi == -1 {
            acc.push(EnumFormatInfoView { formats: seq![format], modifiers: ordered })
        } else {
            acc.update(
                gi,
                EnumFormatInfoView {
                    formats: acc[gi].formats.push(format),
                    modifiers: acc[gi].modifiers,
                },
            )
        }
    }
}

/// The catalog assembled from the candidates, in order.
pub open spec fn spec_build_enum_formats(
    candidates: Seq<FormatModifiersView>,
) -> Seq<EnumFormatInfoView>
    decreases candidates.len(),
{
    if candidates.len() == 0 {
        Seq::empty()
    } else {
        spec_add_candidate(
            spec_build_enum_formats(candidates.drop_last()),
            candidates.last().format,
            candidates.last().modifiers,
        )
    }
}

/// Whether two modifier lists are the same.
fn tokens_eq(a: &Vec<u64>, b: &Vec<u64>) -> (r: bool)
    ensures
        r == (a@ == b@),
{
    if a.len() != b.len() {
        return false;
    }
    let mut i: usize = 0;
    while i < a.len()
        invariant
            i <= a@.len(),
            a@.len() == b@.len(),
            forall|j: int| 0 <= j < i ==> a@[j] == b@[j],
        decreases a@.len() - i,
    {
        if a[i] != b[i] {
            return false;
        }
        i = i + 1;
    }
    proof {
        assert(a@ =~= b@);
    }
    true
}

/// The first group of the catalog advertising exactly this modifier list,
/// as [`group_index`] names it.
fn find_group(groups: &Vec<EnumFormatInfo>, modifiers: &Vec<u64>) -> (r: Option<usize>)
    ensures
        match r {
            Some(i) => i as int == group_index(catalog_view(groups@), modifiers@),
            None => group_index(catalog_view(groups@), modifiers@) == -1,
        },
{
    let ghost gv = catalog_view(groups@);
    let mut i: usize = 0;
    while i < groups.len()
        invariant
            i <= groups@.len(),
            gv == catalog_view(groups@),
            forall|j: int| 0 <= j < i ==> gv[j].modifiers != modifiers@,
        decreases groups@.len() - i,
    {
        proof {
            assert(gv[i as int] == groups@[i as int]@);
        }
        if tokens_eq(&groups[i].modifiers, modifiers) {
            proof {
                lemma_group_index(gv, modifiers@);
                assert(gv[i as int].modifiers == modifiers@);
            }
            return Some(i);
        }
        i = i + 1;
    }
    proof {
        lemma_group_index(gv, modifiers@);
        if group_index(gv, modifiers@) != -1 {
            assert(gv[group_index(gv, modifiers@)].modifiers == modifiers@);
        }
    }
    None
}

/// Assembles the candidate-format catalog: candidates without modifiers
/// are skipped, the implicit modifier is moved to the front of each list,
/// and formats sharing a modifier list share a group, as
/// [`spec_build_enum_formats`] states.  Every group of the result offers
/// at least one format.
pub fn build_enum_formats(candidates: &Vec<FormatModifiers>) -> (r: Vec<EnumFormatInfo>)
    ensures
        catalog_view(r@) == spec_build_enum_formats(
            candidates@.map_values(|c: FormatModifiers| c@),
        ),
        catalog_wf(catalog_view(r@)),
{
    let ghost cands = candidates@.map_values(|c: FormatModifiers| c@);
    let mut groups: Vec<EnumFormatInfo> = Vec::new();
    let mut i: usize = 0;
    while i < candidates.len()
        invariant
            i <= candidates@.len(),
            cands == candidates@.map_values(|c: FormatModifiers| c@),
            catalog_view(groups@) == spec_build_enum_formats(cands.subrange(0, i as int)),
            catalog_wf(catalog_view(groups@)),
        decreases candidates@.len() - i,
    {
        let ghost acc = catalog_view(groups@);
        proof {
            let prefix1 = cands.subrange(0, i as int + 1);
            assert(prefix1.drop_last() =~= cands.subrange(0, i as int));
            assert(prefix1.last() == cands[i as int]);
            assert(cands[i as int] == candidates@[i as int]@);
        }
        if candidates[i].modifiers.len() == 0 {
            i = i + 1;
            continue ;
        }
        let ordered = order_modifiers(&candidates[i].modifiers);
        let format = candidates[i].format;
        match find_group(&groups, &ordered) {
            Some(g) => {
                proof {
                    lemma_group_index(acc, ordered@);
                }
                groups[g].formats.push(format);
                proof {
                    let gi = g as int;
                    assert(catalog_view(groups@) =~~= acc.update(
                        gi,
                        (EnumFormatInfoView {
                            formats: acc[gi].formats.push(format),
                            modifiers: acc[gi].modifiers,
                        }),
                    ));
                }
            },
            None => {
                let mut formats: Vec<Format> = Vec::new();
                formats.push(format);
                groups.push(EnumFormatInfo { formats, modifiers: ordered });
                proof {
                    assert(catalog_view(groups@) =~~= acc.push(
                        (EnumFormatInfoView { formats: seq![format], modifiers: ordered@ }),
                    ));
                }
            },
        }
        i = i + 1;
    }
    proof {
        assert(cands.subrange(0, cands.len() as int) =~= cands);
    }
    groups
}

} // verus!

verus! {

/// Everything fixation decides: the agreed format layout, the queue to
/// record on, and whether the previous generation's command resources can
/// be kept.
#[derive(Clone, Copy, Debug, PartialEq, Eq, Structural)]
pub struct FixationPlan {
    pub fixated: crate::format::FixateFormat,
    pub queue_index: usize,
    pub reuse_commands: bool,
}

/// Plans a fixation round on the backend's side: picks the first
/// GPU-supported modifier the consumer offered, the queue the copy or
/// blit will record on, and whether the command pool of the previous pool
/// generation still fits.  A candidate without modifiers asks for
/// memory-mapped export, which this pipeline does not support: the
/// candidate is rejected rather than guessed at.  The round also fails
/// when no offered layout is supported or no usable queue exists.
pub fn plan_fixation(
    supported: &Vec<DrmModifierProps>,
    offered: &Vec<u64>,
    queues: &Vec<QueueCaps>,
    queue_handles: &Vec<u64>,
    need_blit: bool,
    previous: &Option<CommandResources>,
    image_count: usize,
) -> (r: Option<FixationPlan>)
    requires
        queue_handles@.len() == queues@.len(),
    ensures
        offered@.len() == 0 ==> r is None,
        offered@.len() > 0 ==> match spec_choose_modifier(supported@, offered@) {
            None => r is None,
            Some(m) => match r {
                None => forall|j: int|
                    0 <= j < queues@.len() ==> (if need_blit {
                        !queues@[j].graphics
                    } else {
                        !queues@[j].transfer
                    }),
                Some(plan) => {
                    &&& plan.fixated == (crate::format::FixateFormat {
                        modifier: Some(m.modifier),
                        planes: m.plane_count,
                    })
                    &&& plan.queue_index < queues@.len()
                    &&& (if need_blit {
                        queues@[plan.queue_index as int].graphics && (forall|j: int|
                            0 <= j < plan.queue_index ==> !queues@[j].graphics)
                    } else {
                        queues@[plan.queue_index as int].transfer && (if !queues@[
                            plan.queue_index as int
                        ].graphics {
                            forall|j: int|
                                0 <= j < plan.queue_index ==> !(queues@[j].transfer
                                    && !queues@[j].graphics)
                        } else {
                            (forall|j: int|
                                0 <= j < queues@.len() ==> !(queues@[j].transfer
                                    && !queues@[j].graphics)) && (forall|j: int|
                                plan.queue_index < j < queues@.len() ==> !queues@[j].transfer)
                        })
                    })
                    &&& plan.reuse_commands == (previous matches Some(p) && p.queue
                        == queue_handles@[plan.queue_index as int] && p.buffer_count
                        >= image_count)
                },
            },
        },
{
    if offered.len() == 0 {
        return None;
    }
    let chosen = match choose_modifier(supported, offered) {
        None => {
            return None;
        },
        Some(m) => m,
    };
    let queue_index = match choose_queue(queues, need_blit) {
        None => {
            return None;
        },
        Some(i) => i,
    };
    let reuse_commands = should_reuse_commands(previous, queue_handles[queue_index], image_count);
    Some(
        FixationPlan {
            fixated: crate::format::FixateFormat {
                modifier: Some(chosen.modifier),
                planes: chosen.plane_count,
            },
            queue_index,
            reuse_commands,
        },
    )
}

} // verus!
