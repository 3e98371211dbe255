//! The sidebar tree: the built-in lists, the areas with their open projects,
//! the other open projects, and the tags.

use vstd::prelude::*;
use crate::tui::model::{Area, Project, ProjectV, Tag};
use crate::tui::state::{all_lists, areas_view, nodes_view, projects_view, tags_view, SidebarNode, SidebarNodeV, SpecialList};

verus! {

/// Whether a project is still open (neither completed nor canceled).
pub open spec fn is_open(p: ProjectV) -> bool {
    !p.completed && !p.canceled
}

/// The area a project is filed under: its area name, when that is not empty.
pub open spec fn area_key(p: ProjectV) -> Option<Seq<char>> {
    match p.area {
        Some(a) => if a.len() > 0 {
            Some(a)
        } else {
            None
        },
        None => None,
    }
}

/// The open projects filed under the area titled `title`, in order, as
/// nested sidebar lines.
pub open spec fn nested_projects(ps: Seq<ProjectV>, title: Seq<char>) -> Seq<SidebarNodeV>
    decreases ps.len(),
{
    if ps.len() == 0 {
        Seq::empty()
    } else {
        let rest = nested_projects(ps.drop_last(), title);
        let p = ps.last();
        if is_open(p) && area_key(p) == Some(title) {
            rest.push(SidebarNodeV::Project { id: p.id, title: p.title, nested: true })
        } else {
            rest
        }
    }
}

/// Whether one of the areas is titled `t`.
pub open spec fn has_area_titled(areas: Seq<(Seq<char>, Seq<char>)>, t: Seq<char>) -> bool {
    exists|i: int| 0 <= i < areas.len() && #[trigger] areas[i].1 == t
}

/// Whether an open project is shown flat, under "Projects": it is filed under
/// no area, or under a name that none of the areas has.
pub open spec fn is_orphan(areas: Seq<(Seq<char>, Seq<char>)>, p: ProjectV) -> bool {
    is_open(p) && match area_key(p) {
        None => true,
        Some(t) => !has_area_titled(areas, t),
    }
}

/// The open projects not shown under an area, in order, as flat sidebar lines.
pub open spec fn orphan_projects(areas: Seq<(Seq<char>, Seq<char>)>, ps: Seq<ProjectV>) -> Seq<SidebarNodeV>
    decreases ps.len(),
{
    if ps.len() == 0 {
        Seq::empty()
    } else {
        let rest = orphan_projects(areas, ps.drop_last());
        let p = ps.last();
        if is_orphan(areas, p) {
            rest.push(SidebarNodeV::Project { id: p.id, title: p.title, nested: false })
        } else {
            rest
        }
    }
}

/// Each area's line followed by its projects' lines.
pub open spec fn area_lines(areas: Seq<(Seq<char>, Seq<char>)>, ps: Seq<ProjectV>) -> Seq<SidebarNodeV>
    decreases areas.len(),
{
    if areas.len() == 0 {
        Seq::empty()
    } else {
        let a = areas.last();
        area_lines(areas.drop_last(), ps) + seq![SidebarNodeV::Area { id: a.0, title: a.1 }]
            + nested_projects(ps, a.1)
    }
}

/// One line per tag.
pub open spec fn tag_lines(tags: Seq<(Seq<char>, Seq<char>)>) -> Seq<SidebarNodeV> {
    tags.map_values(|t: (Seq<char>, Seq<char>)| SidebarNodeV::Tag { id: t.0, name: t.1 })
}

/// The built-in lists' lines.
pub open spec fn list_lines() -> Seq<SidebarNodeV> {
    all_lists().map_values(|l: SpecialList| SidebarNodeV::List(l))
}

/// A section: its header and lines, or nothing when there are no lines.
pub open spec fn section(header: Seq<char>, lines: Seq<SidebarNodeV>) -> Seq<SidebarNodeV> {
    if lines.len() > 0 {
        seq![SidebarNodeV::SectionHeader(header)] + lines
    } else {
        Seq::empty()
    }
}

/// The whole sidebar: the lists, then the areas (each with its open
/// projects), then the other open projects (those without an area, or filed
/// under a name that no area has), then the tags.
pub open spec fn sidebar(areas: Seq<(Seq<char>, Seq<char>)>, ps: Seq<ProjectV>, tags: Seq<(Seq<char>, Seq<char>)>) -> Seq<SidebarNodeV> {
    seq![SidebarNodeV::SectionHeader("Lists"@)] + list_lines()
        + (if areas.len() > 0 {
        seq![SidebarNodeV::SectionHeader("Areas"@)] + area_lines(areas, ps)
    } else {
        Seq::empty()
    }) + section("Projects"@, orphan_projects(areas, ps)) + section("Tags"@, tag_lines(tags))
}

fn project_is_open(p: &Project) -> (b: bool)
    ensures
        b == is_open(p@),
{
    !p.completed && !p.canceled
}

fn filed_under(p: &Project) -> (r: Option<&String>)
    ensures
        match r {
            Some(a) => area_key(p@) == Some(a@),
            None => area_key(p@).is_none(),
        },
{
    match &p.area {
        Some(a) => {
            if !a.as_str().is_empty() {
                Some(a)
            } else {
                None
            }
        },
        None => None,
    }
}

/// Appends the lines of the open projects filed under `title`.
fn push_nested(out: &mut Vec<SidebarNode>, projects: &[Project], title: &String)
    ensures
        nodes_view(final(out)@) == nodes_view(old(out)@) + nested_projects(projects_view(projects@), title@),
{
    let ghost pv = projects_view(projects@);
    let mut i: usize = 0;
    while i < projects.len()
        invariant
            i <= projects.len(),
            pv == projects_view(projects@),
            nodes_view(out@) == nodes_view(old(out)@) + nested_projects(pv.take(i as int), title@),
        decreases projects.len() - i,
    {
        let p = &projects[i];
        proof {
            assert(pv.take(i + 1).drop_last() =~= pv.take(i as int));
        }
        let ghost before = out@;
        if project_is_open(p) {
            match filed_under(p) {
                Some(a) => {
                    if *a == *title {
                        out.push(SidebarNode::Project { id: p.id.clone(), title: p.title.clone(), nested: true });
                        assert(nodes_view(out@) =~= nodes_view(before).push(out@.last()@));
                    }
                },
                None => {},
            }
        }
        i += 1;
    }
    assert(pv.take(projects.len() as int) =~= pv);
}

/// Whether one of the areas is titled `t`.
fn area_titled(areas: &[Area], t: &String) -> (b: bool)
    ensures
        b == has_area_titled(areas_view(areas@), t@),
{
    let ghost av = areas_view(areas@);
    let mut i: usize = 0;
    while i < areas.len()
        invariant
            i <= areas.len(),
            av == areas_view(areas@),
            forall|j: int| 0 <= j < i ==> av[j].1 != t@,
        decreases areas.len() - i,
    {
        if areas[i].title == *t {
            assert(av[i as int].1 == t@);
            return true;
        }
        i += 1;
    }
    false
}

/// Whether a project is shown flat, under "Projects" (see [`is_orphan`]).
fn shown_flat(areas: &[Area], p: &Project) -> (b: bool)
    ensures
        b == is_orphan(areas_view(areas@), p@),
{
    if !project_is_open(p) {
        return false;
    }
    match filed_under(p) {
        Some(a) => !area_titled(areas, a),
        None => true,
    }
}

/// Appends the lines of the open projects not shown under an area.
fn push_orphans(out: &mut Vec<SidebarNode>, areas: &[Area], projects: &[Project])
    ensures
        nodes_view(final(out)@) == nodes_view(old(out)@) + orphan_projects(areas_view(areas@), projects_view(projects@)),
{
    let ghost av = areas_view(areas@);
    let ghost pv = projects_view(projects@);
    let mut i: usize = 0;
    while i < projects.len()
        invariant
            i <= projects.len(),
            pv == projects_view(projects@),
            av == areas_view(areas@),
            nodes_view(out@) == nodes_view(old(out)@) + orphan_projects(av, pv.take(i as int)),
        decreases projects.len() - i,
    {
        let p = &projects[i];
        proof {
            assert(pv.take(i + 1).drop_last() =~= pv.take(i as int));
        }
        let ghost before = out@;
        if shown_flat(areas, p) {
            out.push(SidebarNode::Project { id: p.id.clone(), title: p.title.clone(), nested: false });
            assert(nodes_view(out@) =~= nodes_view(before).push(out@.last()@));
        }
        i += 1;
    }
    assert(pv.take(projects.len() as int) =~= pv);
}

/// Whether some open project is not shown under an area.
fn has_orphans(areas: &[Area], projects: &[Project]) -> (b: bool)
    ensures
        b == (orphan_projects(areas_view(areas@), projects_view(projects@)).len() > 0),
{
    let ghost av = areas_view(areas@);
    let ghost pv = projects_view(projects@);
    let mut i: usize = 0;
    while i < projects.len()
        invariant
            i <= projects.len(),
            pv == projects_view(projects@),
            av == areas_view(areas@),
            orphan_projects(av, pv.take(i as int)).len() == 0,
        decreases projects.len() - i,
    {
        let p = &projects[i];
        proof {
            assert(pv.take(i + 1).drop_last() =~= pv.take(i as int));
        }
        if shown_flat(areas, p) {
            proof {
                lemma_orphans_grow(av, pv, i as int + 1);
                assert(pv.take(projects.len() as int) =~= pv);
            }
            return true;
        }
        i += 1;
    }
    assert(pv.take(projects.len() as int) =~= pv);
    false
}

/// Orphan lines of a prefix are never more than those of the whole.
proof fn lemma_orphans_grow(areas: Seq<(Seq<char>, Seq<char>)>, ps: Seq<ProjectV>, n: int)
    requires
        0 <= n <= ps.len(),
    ensures
        orphan_projects(areas, ps.take(n)).len() <= orphan_projects(areas, ps).len(),
    decreases ps.len() - n,
{
    if n < ps.len() {
        lemma_orphans_grow(areas, ps, n + 1);
        assert(ps.take(n + 1).drop_last() =~= ps.take(n));
    } else {
        assert(ps.take(n) =~= ps);
    }
}

/// The sidebar for the given areas, projects and tags (see [`sidebar`]).
pub fn build_sidebar(areas: &[Area], projects: &[Project], tags: &[Tag]) -> (r: Vec<SidebarNode>)
    ensures
        nodes_view(r@) == sidebar(areas_view(areas@), projects_view(projects@), tags_view(tags@)),
{
    let ghost av = areas_view(areas@);
    let ghost pv = projects_view(projects@);
    let ghost tv = tags_view(tags@);
    let mut out: Vec<SidebarNode> = Vec::new();
    out.push(SidebarNode::SectionHeader("Lists"));
    let lists = SpecialList::all();
    let mut k: usize = 0;
    while k < 7
        invariant
            k <= 7,
            lists@ == all_lists(),
            nodes_view(out@) == seq![SidebarNodeV::SectionHeader("Lists"@)] + list_lines().take(k as int),
        decreases 7 - k,
    {
        let ghost before = out@;
        out.push(SidebarNode::List(lists[k]));
        assert(nodes_view(out@) =~= nodes_view(before).push(SidebarNodeV::List(all_lists()[k as int])));
        assert(list_lines().take(k + 1) =~= list_lines().take(k as int).push(SidebarNodeV::List(all_lists()[k as int])));
        k += 1;
    }
    assert(list_lines().take(7) =~= list_lines());
    let ghost head = nodes_view(out@);
    if areas.len() > 0 {
        out.push(SidebarNode::SectionHeader("Areas"));
        assert(nodes_view(out@) =~= head + seq![SidebarNodeV::SectionHeader("Areas"@)]);
        let mut i: usize = 0;
        while i < areas.len()
            invariant
                i <= areas.len(),
                av == areas_view(areas@),
                pv == projects_view(projects@),
                nodes_view(out@) == head + seq![SidebarNodeV::SectionHeader("Areas"@)] + area_lines(av.take(i as int), pv),
            decreases areas.len() - i,
        {
            let a = &areas[i];
            let ghost before = nodes_view(out@);
            out.push(SidebarNode::Area { id: a.id.clone(), title: a.title.clone() });
            assert(nodes_view(out@) =~= before + seq![SidebarNodeV::Area { id: a.id@, title: a.title@ }]);
            push_nested(&mut out, projects, &a.title);
            proof {
                assert(av.take(i + 1).drop_last() =~= av.take(i as int));
                assert(av.take(i + 1).last() == a@);
            }
            i += 1;
        }
        assert(av.take(areas.len() as int) =~= av);
    } else {
        assert(nodes_view(out@) =~= head + Seq::<SidebarNodeV>::empty());
    }
    let ghost mid = nodes_view(out@);
    if has_orphans(areas, projects) {
        out.push(SidebarNode::SectionHeader("Projects"));
        assert(nodes_view(out@) =~= mid + seq![SidebarNodeV::SectionHeader("Projects"@)]);
        push_orphans(&mut out, areas, projects);
        assert(nodes_view(out@) =~= mid + section("Projects"@, orphan_projects(av, pv)));
    } else {
        assert(nodes_view(out@) =~= mid + section("Projects"@, orphan_projects(av, pv)));
    }
    let ghost mid2 = nodes_view(out@);
    if tags.len() > 0 {
        out.push(SidebarNode::SectionHeader("Tags"));
        let mut j: usize = 0;
        while j < tags.len()
            invariant
                j <= tags.len(),
                tv == tags_view(tags@),
                nodes_view(out@) == mid2 + seq![SidebarNodeV::SectionHeader("Tags"@)] + tag_lines(tv.take(j as int)),
            decreases tags.len() - j,
        {
            let t = &tags[j];
            let ghost before = out@;
            out.push(SidebarNode::Tag { id: t.id.clone(), name: t.name.clone() });
            assert(nodes_view(out@) =~= nodes_view(before).push(out@.last()@));
            assert(tag_lines(tv.take(j + 1)) =~= tag_lines(tv.take(j as int)).push(SidebarNodeV::Tag { id: t.id@, name: t.name@ }));
            j += 1;
        }
        assert(tv.take(tags.len() as int) =~= tv);
        assert(tag_lines(tv).len() > 0);
    } else {
        assert(tag_lines(tv).len() == 0);
        assert(nodes_view(out@) =~= mid2 + section("Tags"@, tag_lines(tv)));
    }
    assert(nodes_view(out@) =~= sidebar(av, pv, tv));
    out
}

} // verus!
