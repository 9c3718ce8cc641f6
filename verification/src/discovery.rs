//! Discovery of the per-session parameters that the data request needs.

use vstd::prelude::*;
use crate::constants::{DEFAULT_KBJCMSID, SEMESTER_SELECTOR, TIME_GRID_SELECTOR};
use crate::form::{encode_form, field, fields_view, form_encoded};
use crate::html::{matched_nodes, nodes_view, opt_nodes_view, select_nodes, Node, NodeView};
use crate::text::{trim_text, trimmed};

verus! {

/// One term offered by the selection form.
#[derive(Debug, Clone)]
pub struct Semester {
    /// The identifier sent back to the server, never empty.
    pub id: String,
    /// The display text, trimmed.
    pub name: String,
    /// Whether the form shows this term as selected.
    pub is_current: bool,
}

/// The mathematical value of a [`Semester`].
pub struct SemesterView {
    pub id: Seq<char>,
    pub name: Seq<char>,
    pub is_current: bool,
}

impl View for Semester {
    type V = SemesterView;

    open spec fn view(&self) -> SemesterView {
        SemesterView { id: self.id@, name: self.name@, is_current: self.is_current }
    }
}

/// The parameters discovered for one session.
#[derive(Debug, Clone)]
pub struct CourseMeta {
    /// The terms, in document order; index 0 is the one requests use.
    pub semesters: Vec<Semester>,
    /// The time-grid identifier.
    pub kbjcmsid: String,
}

/// The mathematical value of a [`CourseMeta`].
pub struct CourseMetaView {
    pub semesters: Seq<SemesterView>,
    pub kbjcmsid: Seq<char>,
}

/// The values of a list of semesters, in order.
pub open spec fn semesters_view(semesters: Seq<Semester>) -> Seq<SemesterView> {
    Seq::new(semesters.len(), |i: int| semesters[i]@)
}

impl View for CourseMeta {
    type V = CourseMetaView;

    open spec fn view(&self) -> CourseMetaView {
        CourseMetaView { semesters: semesters_view(self.semesters@), kbjcmsid: self.kbjcmsid@ }
    }
}

/// Why discovery failed.
#[derive(Debug, Clone, Copy, PartialEq, Eq, Structural)]
pub enum DiscoveryError {
    /// The page offers no semester with an identifier.
    NoSemesters,
}

/// The identifier an option carries: its `value`, empty where it has none.
pub open spec fn node_id(node: NodeView) -> Seq<char> {
    match node.value {
        Some(v) => v,
        None => Seq::empty(),
    }
}

/// The option carries an identifier.
pub open spec fn has_id(node: NodeView) -> bool {
    node_id(node).len() > 0
}

/// The semester that an option with an identifier stands for.
pub open spec fn semester_of(node: NodeView) -> SemesterView {
    SemesterView { id: node_id(node), name: trimmed(node.text), is_current: node.selected is Some }
}

/// The options that carry an identifier, in document order.
pub open spec fn options_with_id(nodes: Seq<NodeView>) -> Seq<NodeView> {
    nodes.filter(|n: NodeView| has_id(n))
}

/// The semesters that a list of options gives: one for each option with an
/// identifier, in document order.
pub open spec fn semesters_of(nodes: Seq<NodeView>) -> Seq<SemesterView> {
    options_with_id(nodes).map_values(|n: NodeView| semester_of(n))
}

/// The time-grid identifier that a list of options gives: the `value` of the
/// first one, or the default where there is none.
pub open spec fn time_grid_of(nodes: Option<Seq<NodeView>>) -> Seq<char> {
    match nodes {
        Some(s) => if s.len() > 0 && s[0].value is Some {
            s[0].value->0
        } else {
            DEFAULT_KBJCMSID@
        },
        None => DEFAULT_KBJCMSID@,
    }
}

/// The options of an optional list; none where the list is missing.
pub open spec fn nodes_or_empty(nodes: Option<Seq<NodeView>>) -> Seq<NodeView> {
    match nodes {
        Some(s) => s,
        None => Seq::empty(),
    }
}

/// What discovery returns for the options matched by the two selectors.
pub open spec fn discovered(
    time_grid: Option<Seq<NodeView>>,
    semesters: Option<Seq<NodeView>>,
    r: Result<CourseMeta, DiscoveryError>,
) -> bool {
    let found = semesters_of(nodes_or_empty(semesters));
    if found.len() == 0 {
        r == Err::<CourseMeta, DiscoveryError>(DiscoveryError::NoSemesters)
    } else {
        &&& r matches Ok(meta)
        &&& meta@.semesters == found
        &&& meta@.kbjcmsid == time_grid_of(time_grid)
    }
}

/// Adding one option at the end adds its semester at the end, or nothing
/// where the option has no identifier.
pub proof fn lemma_semesters_push(nodes: Seq<NodeView>, node: NodeView)
    ensures
        semesters_of(nodes.push(node)) == if has_id(node) {
            semesters_of(nodes).push(semester_of(node))
        } else {
            semesters_of(nodes)
        },
{
    reveal(Seq::filter);
    assert(nodes.push(node).drop_last() =~= nodes);
    if has_id(node) {
        assert(options_with_id(nodes.push(node)) == options_with_id(nodes).push(node));
        assert(semesters_of(nodes.push(node)) =~= semesters_of(nodes).push(semester_of(node)));
    }
}

/// No discovered semester has an empty identifier, and there are never more
/// semesters than options.
pub proof fn lemma_semesters_have_ids(nodes: Seq<NodeView>)
    ensures
        semesters_of(nodes).len() <= nodes.len(),
        forall|j: int| 0 <= j < semesters_of(nodes).len() ==> (#[trigger] semesters_of(nodes)[j]).id.len() > 0,
    decreases nodes.len(),
{
    if nodes.len() == 0 {
        reveal(Seq::filter);
    } else {
        lemma_semesters_have_ids(nodes.drop_last());
        lemma_semesters_push(nodes.drop_last(), nodes.last());
        assert(nodes.drop_last().push(nodes.last()) =~= nodes);
    }
}

/// Where every option has an identifier, the semesters are the options one
/// for one, in document order, and a semester is current exactly where its
/// option carries the `selected` attribute.
pub proof fn lemma_semesters_keep_order(nodes: Seq<NodeView>)
    requires
        forall|i: int| 0 <= i < nodes.len() ==> has_id(#[trigger] nodes[i]),
    ensures
        semesters_of(nodes).len() == nodes.len(),
        forall|i: int| 0 <= i < nodes.len() ==> #[trigger] semesters_of(nodes)[i] == semester_of(nodes[i]),
        forall|i: int| 0 <= i < nodes.len() ==> ((#[trigger] semesters_of(nodes)[i]).is_current <==> nodes[i].selected is Some),
    decreases nodes.len(),
{
    if nodes.len() == 0 {
        reveal(Seq::filter);
    } else {
        lemma_semesters_keep_order(nodes.drop_last());
        lemma_semesters_push(nodes.drop_last(), nodes.last());
        assert(nodes.drop_last().push(nodes.last()) =~= nodes);
    }
}

/// Reads the semesters off the options of the semester selector.
pub fn semesters_from(nodes: &Vec<Node>) -> (r: Vec<Semester>)
    ensures
        semesters_view(r@) == semesters_of(nodes_view(nodes@)),
{
    let mut out: Vec<Semester> = Vec::new();
    let mut i: usize = 0;
    proof {
        reveal(Seq::filter);
        assert(nodes_view(nodes@).take(0) =~= Seq::<NodeView>::empty());
        assert(semesters_view(out@) =~= semesters_of(nodes_view(nodes@).take(0)));
    }
    while i < nodes.len()
        invariant
            i <= nodes@.len(),
            semesters_view(out@) == semesters_of(nodes_view(nodes@).take(i as int)),
        decreases nodes@.len() - i,
    {
        let node = &nodes[i];
        let ghost before = semesters_view(out@);
        proof {
            lemma_semesters_push(nodes_view(nodes@).take(i as int), node@);
            assert(nodes_view(nodes@).take(i + 1) =~= nodes_view(nodes@).take(i as int).push(node@));
        }
        match &node.value {
            Some(id) => {
                if !id.as_str().is_empty() {
                    let semester = Semester {
                        id: id.clone(),
                        name: trim_text(node.text.as_str()),
                        is_current: node.selected.is_some(),
                    };
                    out.push(semester);
                    assert(semesters_view(out@) =~= before.push(semester_of(node@)));
                }
            },
            None => {},
        }
        i += 1;
    }
    assert(nodes_view(nodes@).take(nodes@.len() as int) =~= nodes_view(nodes@));
    out
}

/// Reads the time-grid identifier off the options of the time-grid selector,
/// with the default where the selector or its value is missing.
pub fn time_grid_from(nodes: &Option<Vec<Node>>) -> (r: String)
    ensures
        r@ == time_grid_of(opt_nodes_view(*nodes)),
{
    match nodes {
        Some(list) => {
            if list.len() > 0 {
                match &list[0].value {
                    Some(v) => v.clone(),
                    None => DEFAULT_KBJCMSID.to_owned(),
                }
            } else {
                DEFAULT_KBJCMSID.to_owned()
            }
        },
        None => DEFAULT_KBJCMSID.to_owned(),
    }
}

/// Puts the discovered parameters together from the options that the two
/// selectors matched. Fails exactly where no semester is left.
pub fn course_meta_from(time_grid: &Option<Vec<Node>>, semesters: &Option<Vec<Node>>) -> (r: Result<
    CourseMeta,
    DiscoveryError,
>)
    ensures
        discovered(opt_nodes_view(*time_grid), opt_nodes_view(*semesters), r),
{
    let found = match semesters {
        Some(list) => semesters_from(list),
        None => {
            proof {
                reveal(Seq::filter);
            }
            Vec::new()
        },
    };
    assert(semesters_view(found@) =~= semesters_of(nodes_or_empty(opt_nodes_view(*semesters))));
    if found.len() == 0 {
        return Err(DiscoveryError::NoSemesters);
    }
    Ok(CourseMeta { semesters: found, kbjcmsid: time_grid_from(time_grid) })
}

/// Reads the per-session parameters off the page that answers the probe.
pub fn parse_course_meta(html: &str) -> (r: Result<CourseMeta, DiscoveryError>)
    ensures
        discovered(matched_nodes(html@, TIME_GRID_SELECTOR@), matched_nodes(html@, SEMESTER_SELECTOR@), r),
{
    let time_grid = select_nodes(html, TIME_GRID_SELECTOR);
    let semesters = select_nodes(html, SEMESTER_SELECTOR);
    course_meta_from(&time_grid, &semesters)
}

/// The fields of the probe that makes the server render its selection form.
pub open spec fn probe_fields() -> Seq<(Seq<char>, Seq<char>)> {
    seq![("viweType"@, "0"@)]
}

/// Builds the body of the probe request.
pub fn probe_form_body() -> (r: String)
    ensures
        r@ == form_encoded(probe_fields()),
{
    let mut fields: Vec<(String, String)> = Vec::new();
    fields.push(field("viweType", "0"));
    assert(fields_view(fields@) =~= probe_fields());
    encode_form(&fields)
}

} // verus!
