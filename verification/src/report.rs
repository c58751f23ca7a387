use vstd::prelude::*;

use crate::event::{augment_definition, augment_definition_spec};
use crate::event_apply::{EventLine, EventReport};
use crate::event_choices::{augment_title_and_description, description_of, title_of};
use crate::feedback::UiFeedback;
use crate::rewards::AugmentGrant;
use crate::session::{AugmentEntry, AugmentId, AugmentRarity};
use crate::shop::AugmentText;
use crate::text::{concat_str, decimal_spec, decimal_string, owned};

verus! {

/// The name shown for a rarity.
pub open spec fn rarity_label_spec(r: AugmentRarity) -> Seq<char> {
    match r {
        AugmentRarity::Common => "普通"@,
        AugmentRarity::Elite => "精英"@,
        AugmentRarity::Legendary => "传说"@,
    }
}

/// The name shown for a rarity.
pub fn rarity_label(r: AugmentRarity) -> (s: &'static str)
    ensures
        s@ == rarity_label_spec(r),
{
    match r {
        AugmentRarity::Common => "普通",
        AugmentRarity::Elite => "精英",
        AugmentRarity::Legendary => "传说",
    }
}

/// How a held augment is named: "{title} · {rarity}" when the game data knows it, else its
/// id as "AugmentId({n})".
pub open spec fn held_augment_label(augments: Seq<AugmentEntry>, texts: Seq<AugmentText>, id: AugmentId) -> Seq<char> {
    match augment_definition_spec(augments, id) {
        Some(e) => title_of(texts, id) + " · "@ + rarity_label_spec(e.rarity),
        None => "AugmentId("@ + decimal_spec(id.0 as nat) + ")"@,
    }
}

/// The two lines that report a grant. The first says whether the augment was gained
/// ("获得强化：{title} · {rarity} Lv{after}"), raised ("强化升级：{title} Lv{before} ->
/// Lv{after}") or already at its limit ("强化已达上限：{title} Lv{after}"); the second gives its
/// effect ("效果：{description}"). An augment the game data does not know is named "未知强化",
/// of common rarity, with the effect "效果未配置".
pub open spec fn grant_lines_spec(augments: Seq<AugmentEntry>, texts: Seq<AugmentText>, g: AugmentGrant) -> Seq<Seq<char>> {
    let known = augment_definition_spec(augments, g.id);
    let title = match known { Some(_) => title_of(texts, g.id), None => "未知强化"@ };
    let rarity = match known { Some(e) => e.rarity, None => AugmentRarity::Common };
    let effect = match known { Some(_) => description_of(texts, g.id), None => "效果未配置"@ };
    let change = if g.before_stacks == 0 {
        "获得强化："@ + title + " · "@ + rarity_label_spec(rarity) + " Lv"@ + decimal_spec(g.after_stacks as nat)
    } else if g.after_stacks > g.before_stacks {
        "强化升级："@ + title + " Lv"@ + decimal_spec(g.before_stacks as nat) + " -> Lv"@
            + decimal_spec(g.after_stacks as nat)
    } else {
        "强化已达上限："@ + title + " Lv"@ + decimal_spec(g.after_stacks as nat)
    };
    seq![change, "效果："@ + effect]
}

/// The text lines of one report line: a text as it is, the body lines where the body change
/// is reported, a given-up augment named after its prefix, and the two lines of a grant.
pub open spec fn line_texts(l: EventLine, body: Seq<Seq<char>>, augments: Seq<AugmentEntry>, texts: Seq<AugmentText>) -> Seq<Seq<char>> {
    match l {
        EventLine::Text(s) => seq![s@],
        EventLine::Body => body,
        EventLine::Removed { prefix, id } => seq![prefix@ + held_augment_label(augments, texts, id)],
        EventLine::Granted(g) => grant_lines_spec(augments, texts, g),
    }
}

/// The text lines of a report's lines, in order.
pub open spec fn rendered_lines(lines: Seq<EventLine>, body: Seq<Seq<char>>, augments: Seq<AugmentEntry>, texts: Seq<AugmentText>) -> Seq<Seq<char>>
    decreases lines.len(),
{
    if lines.len() == 0 {
        Seq::empty()
    } else {
        rendered_lines(lines.drop_last(), body, augments, texts) + line_texts(lines.last(), body, augments, texts)
    }
}

/// The views of a list of strings.
pub open spec fn views(v: Seq<String>) -> Seq<Seq<char>> {
    v.map_values(|s: String| s@)
}

/// The name of a held augment, as in `held_augment_label`.
pub fn describe_held_augment(augments: &Vec<AugmentEntry>, texts: &Vec<AugmentText>, id: AugmentId) -> (s: String)
    ensures
        s@ == held_augment_label(augments@, texts@, id),
{
    match augment_definition(augments, id) {
        Some(e) => {
            let (title, _) = augment_title_and_description(texts, id);
            let s = concat_str(title, " · ");
            concat_str(s, rarity_label(e.rarity))
        },
        None => {
            let s = owned("AugmentId(");
            let s = concat_str(s, decimal_string(id.0).as_str());
            concat_str(s, ")")
        },
    }
}

/// The two lines that report grant `g`, as in `grant_lines_spec`.
pub fn describe_augment_grant(augments: &Vec<AugmentEntry>, texts: &Vec<AugmentText>, g: AugmentGrant) -> (v: Vec<String>)
    ensures
        v@.len() == 2,
        views(v@) == grant_lines_spec(augments@, texts@, g),
{
    let (title, rarity, effect) = match augment_definition(augments, g.id) {
        Some(e) => {
            let (t, d) = augment_title_and_description(texts, g.id);
            (t, e.rarity, d)
        },
        None => (owned("未知强化"), AugmentRarity::Common, owned("效果未配置")),
    };
    let change = if g.before_stacks == 0 {
        let s = concat_str(owned("获得强化："), title.as_str());
        let s = concat_str(s, " · ");
        let s = concat_str(s, rarity_label(rarity));
        let s = concat_str(s, " Lv");
        concat_str(s, decimal_string(g.after_stacks).as_str())
    } else if g.after_stacks > g.before_stacks {
        let s = concat_str(owned("强化升级："), title.as_str());
        let s = concat_str(s, " Lv");
        let s = concat_str(s, decimal_string(g.before_stacks).as_str());
        let s = concat_str(s, " -> Lv");
        concat_str(s, decimal_string(g.after_stacks).as_str())
    } else {
        let s = concat_str(owned("强化已达上限："), title.as_str());
        let s = concat_str(s, " Lv");
        concat_str(s, decimal_string(g.after_stacks).as_str())
    };
    let second = concat_str(owned("效果："), effect.as_str());
    let mut v: Vec<String> = Vec::new();
    v.push(change);
    v.push(second);
    proof {
        assert(views(v@) =~= grant_lines_spec(augments@, texts@, g));
    }
    v
}

proof fn lemma_views_push(v: Seq<String>, s: String)
    ensures
        views(v.push(s)) == views(v) + seq![s@],
{
    assert(views(v.push(s)) =~= views(v) + seq![s@]);
}

/// Write out a report for the player: each line as in `line_texts`, with `body` as the lines
/// that report the body change (the caller's, since health and energy are fractional).
pub fn render_report(rep: &EventReport, body: &Vec<String>, augments: &Vec<AugmentEntry>, texts: &Vec<AugmentText>) -> (f: UiFeedback)
    ensures
        f.title@ == rep.title@,
        views(f.lines@) == rendered_lines(rep.lines@, views(body@), augments@, texts@),
        f.severity == rep.severity,
        f.requires_ack == rep.requires_ack,
        f.return_phase == rep.return_phase,
{
    let ghost bv = views(body@);
    let mut out: Vec<String> = Vec::new();
    let mut i: usize = 0;
    proof {
        assert(rep.lines@.take(0) =~= Seq::<EventLine>::empty());
        assert(views(out@) =~= Seq::<Seq<char>>::empty());
    }
    while i < rep.lines.len()
        invariant
            i <= rep.lines@.len(),
            bv == views(body@),
            views(out@) == rendered_lines(rep.lines@.take(i as int), bv, augments@, texts@),
        decreases rep.lines@.len() - i,
    {
        let ghost before = out@;
        let ghost add = line_texts(rep.lines@[i as int], bv, augments@, texts@);
        match &rep.lines[i] {
            EventLine::Text(s) => {
                let c = s.clone();
                out.push(c);
                proof {
                    lemma_views_push(before, c);
                }
            },
            EventLine::Body => {
                let mut j: usize = 0;
                while j < body.len()
                    invariant
                        j <= body@.len(),
                        bv == views(body@),
                        views(out@) == views(before) + bv.take(j as int),
                    decreases body@.len() - j,
                {
                    let ghost mid = out@;
                    let c = body[j].clone();
                    out.push(c);
                    proof {
                        lemma_views_push(mid, c);
                        assert(bv.take(j + 1) =~= bv.take(j as int) + seq![c@]);
                    }
                    j = j + 1;
                }
                proof {
                    assert(bv.take(body@.len() as int) =~= bv);
                }
            },
            EventLine::Removed { prefix, id } => {
                let label = describe_held_augment(augments, texts, *id);
                let c = concat_str(prefix.clone(), label.as_str());
                out.push(c);
                proof {
                    lemma_views_push(before, c);
                }
            },
            EventLine::Granted(g) => {
                let two = describe_augment_grant(augments, texts, *g);
                proof {
                    assert(views(two@)[0] == two@[0]@);
                    assert(views(two@)[1] == two@[1]@);
                }
                let a = two[0].clone();
                let b = two[1].clone();
                out.push(a);
                proof {
                    lemma_views_push(before, a);
                }
                let ghost mid = out@;
                out.push(b);
                proof {
                    lemma_views_push(mid, b);
                    assert(add =~= seq![a@, b@]);
                }
            },
        }
        proof {
            assert(views(out@) =~= views(before) + add);
            assert(rep.lines@.take(i + 1).drop_last() =~= rep.lines@.take(i as int));
            assert(rep.lines@.take(i + 1).last() == rep.lines@[i as int]);
        }
        i = i + 1;
    }
    proof {
        assert(rep.lines@.take(rep.lines@.len() as int) =~= rep.lines@);
    }
    UiFeedback {
        title: rep.title.clone(),
        lines: out,
        severity: rep.severity,
        requires_ack: rep.requires_ack,
        return_phase: rep.return_phase,
    }
}

} // verus!
