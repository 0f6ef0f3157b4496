//! The engine's container listing, one line for each container:
//! `id,name,status`.

use vstd::prelude::*;

use crate::text::{fields, has_prefix, split, starts_with, trim, trimmed};

verus! {

/// A container as the engine lists it.
#[derive(Debug)]
pub struct ObservedContainer {
    pub id: String,
    pub name: String,
    pub running: bool,
}

pub struct ObservedContainerView {
    pub id: Seq<char>,
    pub name: Seq<char>,
    pub running: bool,
}

impl View for ObservedContainer {
    type V = ObservedContainerView;

    open spec fn view(&self) -> ObservedContainerView {
        ObservedContainerView { id: self.id@, name: self.name@, running: self.running }
    }
}

impl DeepView for ObservedContainer {
    type V = ObservedContainerView;

    open spec fn deep_view(&self) -> ObservedContainerView {
        self@
    }
}

impl Clone for ObservedContainer {
    fn clone(&self) -> (r: Self)
        ensures
            r@ == self@,
    {
        ObservedContainer { id: self.id.clone(), name: self.name.clone(), running: self.running }
    }
}

/// The container that one line of the listing describes. A line that is
/// blank, or has fewer than three fields between commas, describes none.
/// The fields are trimmed; the container runs where its status begins with
/// `Up`.
pub open spec fn observed_in_line(line: Seq<char>) -> Option<ObservedContainerView> {
    let parts = fields(line, ',');
    if trimmed(line).len() == 0 || parts.len() < 3 {
        None
    } else {
        Some(
            ObservedContainerView {
                id: trimmed(parts[0]),
                name: trimmed(parts[1]),
                running: has_prefix(trimmed(parts[2]), "Up"@),
            },
        )
    }
}

/// The containers that the lines describe, in the order of the lines.
pub open spec fn observed_in_lines(lines: Seq<Seq<char>>) -> Seq<ObservedContainerView>
    decreases lines.len(),
{
    if lines.len() == 0 {
        Seq::empty()
    } else {
        let before = observed_in_lines(lines.drop_last());
        match observed_in_line(lines.last()) {
            Some(found) => before.push(found),
            None => before,
        }
    }
}

/// The containers that the listing describes.
pub open spec fn observed_containers(listing: Seq<char>) -> Seq<ObservedContainerView> {
    observed_in_lines(fields(listing, '\n'))
}

/// The container that `line` describes, if it describes one.
pub fn parse_line(line: &str) -> (r: Option<ObservedContainer>)
    ensures
        r.deep_view() == observed_in_line(line@),
{
    let whole = trim(line);
    if whole.as_str().unicode_len() == 0 {
        return None;
    }
    let parts = split(line, ',');
    if parts.len() < 3 {
        return None;
    }
    let status = trim(parts[2].as_str());
    Some(
        ObservedContainer {
            id: trim(parts[0].as_str()),
            name: trim(parts[1].as_str()),
            running: starts_with(status.as_str(), "Up"),
        },
    )
}

/// The containers that `listing` describes.
pub fn parse_listing(listing: &str) -> (r: Vec<ObservedContainer>)
    ensures
        r.deep_view() == observed_containers(listing@),
{
    let lines = split(listing, '\n');
    let mut out: Vec<ObservedContainer> = Vec::new();
    let mut at: usize = 0;
    assert(lines.deep_view().take(0) =~= Seq::<Seq<char>>::empty());
    assert(out.deep_view() =~= Seq::<ObservedContainerView>::empty());
    while at < lines.len()
        invariant
            at <= lines.len(),
            out.deep_view() == observed_in_lines(lines.deep_view().take(at as int)),
        decreases lines.len() - at,
    {
        let ghost shown = out.deep_view();
        let ghost upto = lines.deep_view().take(at + 1);
        assert(upto.drop_last() =~= lines.deep_view().take(at as int));
        assert(upto.last() == lines[at as int]@);
        match parse_line(lines[at].as_str()) {
            Some(found) => {
                out.push(found);
                assert(out.deep_view() =~= shown.push(found@));
            },
            None => {},
        }
        at += 1;
    }
    assert(lines.deep_view().take(at as int) =~= lines.deep_view());
    out
}

/// A copy of a list of observed containers.
pub fn copy_observed(v: &Vec<ObservedContainer>) -> (r: Vec<ObservedContainer>)
    ensures
        r.deep_view() == v.deep_view(),
{
    let mut out: Vec<ObservedContainer> = Vec::new();
    let mut at: usize = 0;
    while at < v.len()
        invariant
            at <= v.len(),
            out.deep_view() == v.deep_view().take(at as int),
        decreases v.len() - at,
    {
        let ghost shown = out.deep_view();
        out.push(v[at].clone());
        assert(out.deep_view() =~= shown.push(v.deep_view()[at as int]));
        assert(v.deep_view().take(at + 1) =~= v.deep_view().take(at as int).push(
            v.deep_view()[at as int],
        ));
        at += 1;
    }
    assert(v.deep_view().take(at as int) =~= v.deep_view());
    out
}

} // verus!
