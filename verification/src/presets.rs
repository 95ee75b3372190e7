//! The saved MIPI command presets: thirty numbered slots by default, kept in
//! the order of their indices.
use vstd::prelude::*;

use vstd::multiset::Multiset;

use crate::results::{CommandPresetItem, CommandPresetListResult, GenericResult};
use crate::text::{chars_of, concat, dec2, owned, push_str, string_of};

verus! {

/// The view of a preset: its index, name and content.
pub open spec fn preset_view(p: CommandPresetItem) -> (usize, Seq<char>, Seq<char>) {
    (p.index, p.name@, p.content@)
}

/// The views of a list of presets.
pub open spec fn preset_views(v: Seq<CommandPresetItem>) -> Seq<(usize, Seq<char>, Seq<char>)> {
    v.map_values(|p: CommandPresetItem| preset_view(p))
}

/// Slot `i` (from 0) of the default list: named `NN-CMD` with `NN = i + 1`
/// on two digits, and empty.
pub open spec fn default_preset(i: int) -> (usize, Seq<char>, Seq<char>) {
    (i as usize, dec2((i + 1) as nat) + "-CMD"@, Seq::<char>::empty())
}

/// The thirty empty default slots `01-CMD` to `30-CMD`.
pub fn default_preset_items() -> (r: Vec<CommandPresetItem>)
    ensures
        r@.len() == 30,
        forall|i: int| 0 <= i < 30 ==> preset_view(#[trigger] r@[i]) == default_preset(i),
{
    let mut items: Vec<CommandPresetItem> = Vec::new();
    let mut i: usize = 1;
    while i <= 30
        invariant
            1 <= i <= 31,
            items@.len() == i - 1,
            forall|k: int| 0 <= k < i - 1 ==> preset_view(#[trigger] items@[k]) == default_preset(k),
        decreases 31 - i,
    {
        let mut name: Vec<char> = Vec::new();
        if i < 10 {
            name.push('0');
        }
        crate::text::push_dec(&mut name, i as u64);
        push_str(&mut name, "-CMD");
        proof {
            if i < 10 {
                assert(crate::text::dec(i as nat) == seq![crate::text::digit_char(i as int)]);
            }
            assert(name@ =~= dec2(i as nat) + "-CMD"@);
        }
        items.push(CommandPresetItem { index: i - 1, name: string_of(name.as_slice()), content: String::new() });
        i = i + 1;
    }
    items
}

// ---------------------------------------------------------------------------
// Stable order by index
// ---------------------------------------------------------------------------

/// `x` placed after every element of `s` whose index is not greater.
pub open spec fn insert_by_index(s: Seq<(usize, Seq<char>, Seq<char>)>, x: (usize, Seq<char>, Seq<char>)) -> Seq<
    (usize, Seq<char>, Seq<char>),
>
    decreases s.len(),
{
    if s.len() == 0 {
        seq![x]
    } else if s.last().0 <= x.0 {
        s.push(x)
    } else {
        insert_by_index(s.drop_last(), x).push(s.last())
    }
}

/// The stable sort of presets by index (`sort_by_key(|p| p.index)`): each
/// preset, in the given order, goes after those already placed whose index
/// is not greater.
pub open spec fn sorted_by_index(s: Seq<(usize, Seq<char>, Seq<char>)>) -> Seq<
    (usize, Seq<char>, Seq<char>),
>
    decreases s.len(),
{
    if s.len() == 0 {
        seq![]
    } else {
        insert_by_index(sorted_by_index(s.drop_last()), s.last())
    }
}

/// Indices never decrease along the list.
pub open spec fn index_ordered(s: Seq<(usize, Seq<char>, Seq<char>)>) -> bool {
    forall|i: int, j: int| 0 <= i <= j < s.len() ==> (#[trigger] s[i]).0 <= (#[trigger] s[j]).0
}

proof fn lemma_insert_position(s: Seq<(usize, Seq<char>, Seq<char>)>, x: (usize, Seq<char>, Seq<char>), k: int)
    requires
        index_ordered(s),
        0 <= k <= s.len(),
        forall|i: int| 0 <= i < k ==> (#[trigger] s[i]).0 <= x.0,
        forall|i: int| k <= i < s.len() ==> (#[trigger] s[i]).0 > x.0,
    ensures
        insert_by_index(s, x) == s.take(k).push(x) + s.skip(k),
    decreases s.len(),
{
    if s.len() == 0 {
        assert(s.take(k).push(x) + s.skip(k) =~= seq![x]);
    } else if s.last().0 <= x.0 {
        assert(k == s.len());
        assert(s.take(k).push(x) + s.skip(k) =~= s.push(x));
    } else {
        let p = s.drop_last();
        assert(k < s.len());
        assert forall|i: int, j: int| 0 <= i <= j < p.len() implies (#[trigger] p[i]).0 <= (
        #[trigger] p[j]).0 by {
            assert(p[i] == s[i]);
            assert(p[j] == s[j]);
        }
        assert forall|i: int| 0 <= i < k implies (#[trigger] p[i]).0 <= x.0 by {
            assert(p[i] == s[i]);
        }
        assert forall|i: int| k <= i < p.len() implies (#[trigger] p[i]).0 > x.0 by {
            assert(p[i] == s[i]);
        }
        lemma_insert_position(p, x, k);
        assert(p.take(k).push(x) + p.skip(k) + seq![s.last()] =~= s.take(k).push(x) + s.skip(k));
    }
}

proof fn lemma_insert_ordered(s: Seq<(usize, Seq<char>, Seq<char>)>, x: (usize, Seq<char>, Seq<char>))
    requires
        index_ordered(s),
    ensures
        index_ordered(insert_by_index(s, x)),
        insert_by_index(s, x).to_multiset() == s.to_multiset().insert(x),
    decreases s.len(),
{
    broadcast use vstd::seq_lib::group_seq_properties;
    broadcast use vstd::multiset::group_multiset_axioms;

    if s.len() == 0 {
        assert(insert_by_index(s, x) =~= seq![x]);
        assert(seq![x].to_multiset() =~= Multiset::empty().insert(x)) by {
            assert(seq![x] =~= Seq::<(usize, Seq<char>, Seq<char>)>::empty().push(x));
        }
        assert(s.to_multiset() =~= Multiset::empty());
    } else if s.last().0 <= x.0 {
        let r = s.push(x);
        assert forall|i: int, j: int| 0 <= i <= j < r.len() implies (#[trigger] r[i]).0 <= (
        #[trigger] r[j]).0 by {
            if j == s.len() {
                if i < s.len() {
                    assert(s[i].0 <= s[s.len() - 1].0);
                }
            }
        }
    } else {
        let p = s.drop_last();
        assert forall|i: int, j: int| 0 <= i <= j < p.len() implies (#[trigger] p[i]).0 <= (
        #[trigger] p[j]).0 by {
            assert(p[i] == s[i]);
            assert(p[j] == s[j]);
        }
        lemma_insert_ordered(p, x);
        let q = insert_by_index(p, x);
        let r = q.push(s.last());
        assert forall|i: int, j: int| 0 <= i <= j < r.len() implies (#[trigger] r[i]).0 <= (
        #[trigger] r[j]).0 by {
            if j == q.len() && i < q.len() {
                let e = q[i];
                assert(q.to_multiset().count(e) > 0);
                assert(p.to_multiset().insert(x).count(e) > 0);
                if e == x {
                } else {
                    assert(p.to_multiset().count(e) > 0);
                    assert(p.contains(e));
                    let t = choose|t: int| 0 <= t < p.len() && p[t] == e;
                    assert(s[t] == e);
                    assert(s[t].0 <= s[s.len() - 1].0);
                }
            }
        }
        assert(s == p.push(s.last()));
    }
}

/// Sorting by index keeps the presets and orders them by index.
pub proof fn lemma_sorted_by_index(s: Seq<(usize, Seq<char>, Seq<char>)>)
    ensures
        index_ordered(sorted_by_index(s)),
        sorted_by_index(s).to_multiset() == s.to_multiset(),
    decreases s.len(),
{
    broadcast use vstd::seq_lib::group_seq_properties;

    if s.len() == 0 {
        assert(sorted_by_index(s).to_multiset() =~= s.to_multiset());
    } else {
        lemma_sorted_by_index(s.drop_last());
        lemma_insert_ordered(sorted_by_index(s.drop_last()), s.last());
        assert(s == s.drop_last().push(s.last()));
    }
}

/// Presets already in index order are left as they are by the sort; so
/// sorting twice is sorting once, and a saved (sorted) list reads back as it
/// was saved.
pub proof fn lemma_sorted_by_index_stable(s: Seq<(usize, Seq<char>, Seq<char>)>)
    ensures
        index_ordered(s) ==> sorted_by_index(s) == s,
        sorted_by_index(sorted_by_index(s)) == sorted_by_index(s),
{
    if index_ordered(s) {
        lemma_sorted_by_index_stable_ordered(s);
    }
    lemma_sorted_by_index(s);
    lemma_sorted_by_index_stable_ordered(sorted_by_index(s));
}

/// Saving and then loading gives the saved presets ordered by index. A save
/// writes the presets as [`sort_presets`] orders them, `sorted_by_index(s)`;
/// that list is not empty when `s` is not, so loading it takes the
/// [`PresetSource::Loaded`] branch of [`load_cmdx_list`] with items, which
/// orders them again and gives `sorted_by_index(s)` itself, with success and
/// no note when it was read from the new file.
pub proof fn lemma_save_then_load(s: Seq<(usize, Seq<char>, Seq<char>)>)
    requires
        s.len() > 0,
    ensures
        sorted_by_index(s).len() == s.len(),
        sorted_by_index(sorted_by_index(s)) == sorted_by_index(s),
{
    broadcast use vstd::seq_lib::group_seq_properties;

    lemma_sorted_by_index(s);
    lemma_sorted_by_index_stable(s);
    assert(sorted_by_index(s).to_multiset().len() == s.to_multiset().len());
}

proof fn lemma_sorted_by_index_stable_ordered(s: Seq<(usize, Seq<char>, Seq<char>)>)
    requires
        index_ordered(s),
    ensures
        sorted_by_index(s) == s,
    decreases s.len(),
{
    if s.len() > 0 {
        let p = s.drop_last();
        assert forall|i: int, j: int| 0 <= i <= j < p.len() implies (#[trigger] p[i]).0 <= (
        #[trigger] p[j]).0 by {
            assert(p[i] == s[i]);
            assert(p[j] == s[j]);
        }
        lemma_sorted_by_index_stable_ordered(p);
        if p.len() > 0 {
            assert(p.last() == s[s.len() - 2]);
            assert(s[s.len() - 2].0 <= s[s.len() - 1].0);
        } else {
            assert(s =~= seq![s.last()]);
        }
        assert(s == p.push(s.last()));
    }
}

/// Orders presets by index, keeping the given order among equal indices.
pub fn sort_presets(items: &Vec<CommandPresetItem>) -> (r: Vec<CommandPresetItem>)
    ensures
        preset_views(r@) == sorted_by_index(preset_views(items@)),
{
    let ghost iv = preset_views(items@);
    let mut out: Vec<CommandPresetItem> = Vec::new();
    let mut i: usize = 0;
    while i < items.len()
        invariant
            0 <= i <= items.len(),
            iv == preset_views(items@),
            iv.len() == items@.len(),
            preset_views(out@) == sorted_by_index(iv.take(i as int)),
            index_ordered(preset_views(out@)),
        decreases items.len() - i,
    {
        let x = CommandPresetItem {
            index: items[i].index,
            name: items[i].name.clone(),
            content: items[i].content.clone(),
        };
        let ghost ov = preset_views(out@);
        let ghost xv = preset_view(x);
        assert(xv == iv[i as int]);
        let mut k: usize = 0;
        while k < out.len() && out[k].index <= x.index
            invariant
                0 <= k <= out.len(),
                ov == preset_views(out@),
                ov.len() == out@.len(),
                xv == preset_view(x),
                forall|t: int| 0 <= t < k ==> (#[trigger] ov[t]).0 <= xv.0,
            decreases out.len() - k,
        {
            k = k + 1;
        }
        proof {
            if k < ov.len() {
                assert forall|t: int| k <= t < ov.len() implies (#[trigger] ov[t]).0 > xv.0 by {
                    assert(ov[k as int].0 <= ov[t].0);
                }
            }
            lemma_insert_position(ov, xv, k as int);
            lemma_insert_ordered(ov, xv);
            assert(iv.take(i + 1).drop_last() == iv.take(i as int));
            assert(iv.take(i + 1).last() == xv);
        }
        out.insert(k, x);
        proof {
            assert(preset_views(out@) =~= ov.take(k as int).push(xv) + ov.skip(k as int));
        }
        i = i + 1;
    }
    assert(iv.take(items.len() as int) == iv);
    out
}

/// Where the presets were read from, or why they could not be.
pub enum PresetSource {
    /// The program directory is unknown.
    PathsUnknown(String),
    /// Neither preset file exists.
    Missing,
    /// The chosen file could not be read.
    ReadFailed(String),
    /// The chosen file is not a list of presets.
    ParseFailed(String),
    /// The presets of the chosen file; `legacy` names the old file when that
    /// is the one that was read.
    Loaded { items: Vec<CommandPresetItem>, legacy: Option<String> },
}

/// The preset list: the saved presets ordered by index when a file holds
/// some, else the thirty defaults; a note when the old file was read.
pub fn load_cmdx_list(source: PresetSource) -> (r: CommandPresetListResult)
    ensures
        match source {
            PresetSource::PathsUnknown(e) => !r.success && r.items@.len() == 30 && r.error is Some
                && r.error->0@ == e@,
            PresetSource::Missing => r.success && r.items@.len() == 30 && r.error is None,
            PresetSource::ReadFailed(e) => !r.success && r.items@.len() == 30 && r.error is Some
                && r.error->0@ == "读取命令清单失败: "@ + e@,
            PresetSource::ParseFailed(e) => !r.success && r.items@.len() == 30 && r.error is Some
                && r.error->0@ == "命令清单解析失败: "@ + e@,
            PresetSource::Loaded { items, legacy } => r.success && (if items@.len() == 0 {
                r.items@.len() == 30
            } else {
                preset_views(r.items@) == sorted_by_index(preset_views(items@))
            }) && match legacy {
                Some(l) => r.error is Some && r.error->0@ == "已兼容读取旧命令清单文件: "@ + l@
                    + "；后续保存将写入新文件 command_presets.json"@,
                None => r.error is None,
            },
        },
        !(source matches PresetSource::Loaded { items, .. } && items@.len() > 0) ==> forall|i: int|
            0 <= i < 30 ==> preset_view(#[trigger] r.items@[i]) == default_preset(i),
{
    let defaults = default_preset_items();
    match source {
        PresetSource::PathsUnknown(e) => CommandPresetListResult {
            success: false,
            items: defaults,
            error: Some(e),
        },
        PresetSource::Missing => CommandPresetListResult {
            success: true,
            items: defaults,
            error: None,
        },
        PresetSource::ReadFailed(e) => CommandPresetListResult {
            success: false,
            items: defaults,
            error: Some(concat("读取命令清单失败: ", e.as_str())),
        },
        PresetSource::ParseFailed(e) => CommandPresetListResult {
            success: false,
            items: defaults,
            error: Some(concat("命令清单解析失败: ", e.as_str())),
        },
        PresetSource::Loaded { items, legacy } => {
            let sorted = sort_presets(&items);
            let chosen = if items.len() > 0 {
                sorted
            } else {
                defaults
            };
            let note = match legacy {
                Some(l) => {
                    let mut v = chars_of("已兼容读取旧命令清单文件: ");
                    push_str(&mut v, l.as_str());
                    push_str(&mut v, "；后续保存将写入新文件 command_presets.json");
                    Some(string_of(v.as_slice()))
                },
                None => None,
            };
            CommandPresetListResult { success: true, items: chosen, error: note }
        },
    }
}

/// How saving the presets ended.
pub enum PresetSaveOutcome {
    /// The program directory is unknown.
    PathsUnknown(String),
    /// The presets could not be serialised.
    SerializeFailed(String),
    /// The file could not be written.
    WriteFailed(String),
    /// The presets were written to this path.
    Saved(String),
}

/// The result of saving the presets.
pub fn save_cmdx_list(outcome: PresetSaveOutcome) -> (r: GenericResult)
    ensures
        match outcome {
            PresetSaveOutcome::PathsUnknown(e) => !r.success && r.output@.len() == 0 && r.error
                is Some && r.error->0@ == e@,
            PresetSaveOutcome::SerializeFailed(e) => !r.success && r.output@.len() == 0 && r.error
                is Some && r.error->0@ == "序列化命令清单失败: "@ + e@,
            PresetSaveOutcome::WriteFailed(e) => !r.success && r.output@.len() == 0 && r.error
                is Some && r.error->0@ == "写入命令清单失败: "@ + e@,
            PresetSaveOutcome::Saved(p) => r.success && r.output@ == "已保存命令清单: "@ + p@
                && r.error is None,
        },
{
    match outcome {
        PresetSaveOutcome::PathsUnknown(e) => GenericResult {
            success: false,
            output: String::new(),
            error: Some(e),
        },
        PresetSaveOutcome::SerializeFailed(e) => GenericResult {
            success: false,
            output: String::new(),
            error: Some(concat("序列化命令清单失败: ", e.as_str())),
        },
        PresetSaveOutcome::WriteFailed(e) => GenericResult {
            success: false,
            output: String::new(),
            error: Some(concat("写入命令清单失败: ", e.as_str())),
        },
        PresetSaveOutcome::Saved(p) => GenericResult {
            success: true,
            output: concat("已保存命令清单: ", p.as_str()),
            error: None,
        },
    }
}

} // verus!
