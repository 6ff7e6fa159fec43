//! The decisions of the `#[tool]` attribute.
//!
//! The attribute reads `name = ..` and `description = ..` from its own
//! arguments, sorts the parameters of the function it is put on by their
//! attributes (`#[tool(param)]`, `#[tool(aggr)]` or `#[tool(req)]`,
//! `#[serde(..)]`, `#[schemars(..)]`, others), and names the items it
//! generates. Tokens are read and written elsewhere; here each key, each
//! attribute and each parameter is described by plain values, and the
//! outcome says, by position, what goes where.
use vstd::prelude::*;
use vstd::string::StringExecFns;

verus! {

/// What `#[tool(..)]` says of a parameter.
#[derive(Debug, Clone, Copy, PartialEq, Eq, Structural)]
pub enum ParamMarker {
    /// `param`: the parameter is one field of the tool's arguments.
    Param,
    /// `aggr` or `req`: the parameter is all of the tool's arguments.
    Aggregated,
}

/// Why the attribute cannot be expanded.
#[derive(Debug, Clone, Copy, PartialEq, Eq, Structural)]
pub enum ToolMacroError {
    /// An argument of the attribute, at this position, has an unknown key.
    UnknownAttribute(usize),
    /// `#[tool(..)]` on the parameter at this position holds an unknown word.
    UnknownMarker(usize),
    /// The parameter at this position is marked `param` but has no name
    /// (or is marked `param` twice).
    ParamWithoutIdent(usize),
}

pub open spec fn spec_marker(ident: Seq<char>) -> Option<ParamMarker> {
    if ident == "param"@ {
        Some(ParamMarker::Param)
    } else if ident == "aggr"@ || ident == "req"@ {
        Some(ParamMarker::Aggregated)
    } else {
        None
    }
}

impl ParamMarker {
    /// The marker that a word stands for, if any.
    pub fn from_ident(ident: &str) -> (r: Option<ParamMarker>)
        ensures
            r == spec_marker(ident@),
    {
        proof {
            reveal_strlit("param");
            reveal_strlit("aggr");
            reveal_strlit("req");
        }
        let word = String::from_str(ident);
        if word == String::from_str("param") {
            Some(ParamMarker::Param)
        } else if word == String::from_str("aggr") || word == String::from_str("req") {
            Some(ParamMarker::Aggregated)
        } else {
            None
        }
    }
}

/// Where the attribute's `name` and `description` values are, among its
/// arguments; the last one of each key counts.
#[derive(Debug, Clone, Copy, PartialEq, Eq, Structural)]
pub struct ToolFnItemAttrs {
    pub name: Option<usize>,
    pub description: Option<usize>,
}

/// The attribute's arguments read from the left, given their keys: the
/// first unknown key is an error.
pub open spec fn spec_item_attrs(keys: Seq<Seq<char>>) -> Result<ToolFnItemAttrs, ToolMacroError>
    decreases keys.len(),
{
    if keys.len() == 0 {
        Ok(ToolFnItemAttrs { name: None, description: None })
    } else {
        let i = (keys.len() - 1) as usize;
        match spec_item_attrs(keys.drop_last()) {
            Err(e) => Err(e),
            Ok(a) => if keys.last() == "name"@ {
                Ok(ToolFnItemAttrs { name: Some(i), ..a })
            } else if keys.last() == "description"@ {
                Ok(ToolFnItemAttrs { description: Some(i), ..a })
            } else {
                Err(ToolMacroError::UnknownAttribute(i))
            },
        }
    }
}

/// Reads the attribute's arguments, given their keys in order.
pub fn parse_item_attrs(keys: &Vec<String>) -> (r: Result<ToolFnItemAttrs, ToolMacroError>)
    ensures
        r == spec_item_attrs(keys@.map_values(|k: String| k@)),
{
    proof {
        reveal_strlit("name");
        reveal_strlit("description");
    }
    let ghost ks = keys@.map_values(|k: String| k@);
    let name_key = String::from_str("name");
    let description_key = String::from_str("description");
    let mut acc = ToolFnItemAttrs { name: None, description: None };
    let mut i: usize = 0;
    assert(ks.take(0) =~= Seq::<Seq<char>>::empty());
    while i < keys.len()
        invariant
            i <= keys@.len(),
            ks == keys@.map_values(|k: String| k@),
            name_key@ == "name"@,
            description_key@ == "description"@,
            spec_item_attrs(ks.take(i as int)) == Ok::<ToolFnItemAttrs, ToolMacroError>(acc),
        decreases keys@.len() - i,
    {
        assert(ks.take(i + 1).drop_last() =~= ks.take(i as int));
        assert(ks.take(i + 1).last() == keys@[i as int]@);
        if keys[i] == name_key {
            acc = ToolFnItemAttrs { name: Some(i), ..acc };
        } else if keys[i] == description_key {
            acc = ToolFnItemAttrs { description: Some(i), ..acc };
        } else {
            assert(spec_item_attrs(ks.take(i + 1)) == Err::<ToolFnItemAttrs, ToolMacroError>(
                ToolMacroError::UnknownAttribute(i),
            ));
            proof {
                lemma_item_attrs_error_stays(ks, (i + 1) as int);
            }
            return Err(ToolMacroError::UnknownAttribute(i));
        }
        i = i + 1;
    }
    assert(ks.take(keys@.len() as int) =~= ks);
    Ok(acc)
}

proof fn lemma_item_attrs_error_stays(ks: Seq<Seq<char>>, n: int)
    requires
        0 <= n <= ks.len(),
        spec_item_attrs(ks.take(n)) is Err,
    ensures
        spec_item_attrs(ks) == spec_item_attrs(ks.take(n)),
    decreases ks.len() - n,
{
    if n < ks.len() {
        assert(ks.take(n + 1).drop_last() =~= ks.take(n));
        lemma_item_attrs_error_stays(ks, n + 1);
    } else {
        assert(ks.take(n) =~= ks);
    }
}

/// What one attribute on a parameter is.
#[derive(Debug, Clone, Copy, PartialEq, Eq, Structural)]
pub enum ParamAttr {
    /// `#[tool(..)]`, with the marker that its word stands for, if any.
    Tool(Option<ParamMarker>),
    /// `#[serde(..)]`
    Serde,
    /// `#[schemars(..)]`
    Schemars,
    /// Any other attribute.
    Other,
}

/// What a parameter of the function is.
#[derive(Debug)]
pub struct FnParam {
    /// `self`, in one of its forms.
    pub is_receiver: bool,
    /// The parameter's pattern is a plain name.
    pub has_ident: bool,
    /// Its attributes, in order.
    pub attrs: Vec<ParamAttr>,
}

/// How the attributes of one parameter were sorted.
pub struct ParamScanView {
    /// The last marker found.
    pub marker: Option<ParamMarker>,
    /// How many attributes were kept before that marker.
    pub marker_kept: nat,
    /// The name is still free to be used by a `param` marker.
    pub ident_free: bool,
    /// Positions of the attributes that stay on the parameter.
    pub kept: Seq<usize>,
    /// Positions of its `serde` attributes.
    pub serde: Seq<usize>,
    /// Positions of its `schemars` attributes.
    pub schemars: Seq<usize>,
}

/// Sorts the attributes of the parameter at position `pos`, from the left.
pub open spec fn spec_scan_param(attrs: Seq<ParamAttr>, has_ident: bool, pos: usize) -> Result<
    ParamScanView,
    ToolMacroError,
>
    decreases attrs.len(),
{
    if attrs.len() == 0 {
        Ok(
            ParamScanView {
                marker: None,
                marker_kept: 0,
                ident_free: has_ident,
                kept: Seq::empty(),
                serde: Seq::empty(),
                schemars: Seq::empty(),
            },
        )
    } else {
        let j = (attrs.len() - 1) as usize;
        match spec_scan_param(attrs.drop_last(), has_ident, pos) {
            Err(e) => Err(e),
            Ok(st) => match attrs.last() {
                ParamAttr::Tool(None) => Err(ToolMacroError::UnknownMarker(pos)),
                ParamAttr::Tool(Some(ParamMarker::Param)) => if st.ident_free {
                    Ok(
                        ParamScanView {
                            marker: Some(ParamMarker::Param),
                            marker_kept: st.kept.len(),
                            ident_free: false,
                            ..st
                        },
                    )
                } else {
                    Err(ToolMacroError::ParamWithoutIdent(pos))
                },
                ParamAttr::Tool(Some(ParamMarker::Aggregated)) => Ok(
                    ParamScanView {
                        marker: Some(ParamMarker::Aggregated),
                        marker_kept: st.kept.len(),
                        ..st
                    },
                ),
                ParamAttr::Serde => Ok(ParamScanView { serde: st.serde.push(j), ..st }),
                ParamAttr::Schemars => Ok(ParamScanView { schemars: st.schemars.push(j), ..st }),
                ParamAttr::Other => Ok(ParamScanView { kept: st.kept.push(j), ..st }),
            },
        }
    }
}

/// The positions held in `ps` are exactly those of the attributes that
/// `kind` picks, each once, in increasing order.
pub open spec fn lists_positions_of(
    ps: Seq<usize>,
    attrs: Seq<ParamAttr>,
    kind: spec_fn(ParamAttr) -> bool,
) -> bool {
    &&& forall|j: int| 0 <= j < attrs.len() ==> (ps.contains(j as usize) <==> kind(attrs[j]))
    &&& forall|a: int, b: int| 0 <= a < b < ps.len() ==> ps[a] < ps[b]
    &&& forall|a: int| 0 <= a < ps.len() ==> ps[a] < attrs.len()
}

/// Whatever their place before or after a marker, the `serde` attributes
/// of a parameter that is accepted are all collected, and so are its
/// `schemars` attributes, each in the order written; every other attribute
/// that is not a `tool` attribute stays on the parameter.
pub proof fn law_scan_collects_attributes(attrs: Seq<ParamAttr>, has_ident: bool, pos: usize)
    requires
        attrs.len() <= usize::MAX,
        spec_scan_param(attrs, has_ident, pos) is Ok,
    ensures
        ({
            let sc = spec_scan_param(attrs, has_ident, pos)->Ok_0;
            &&& lists_positions_of(sc.serde, attrs, |a: ParamAttr| a is Serde)
            &&& lists_positions_of(sc.schemars, attrs, |a: ParamAttr| a is Schemars)
            &&& lists_positions_of(sc.kept, attrs, |a: ParamAttr| a is Other)
        }),
    decreases attrs.len(),
{
    if attrs.len() > 0 {
        let prev = attrs.drop_last();
        law_scan_collects_attributes(prev, has_ident, pos);
        let sc0 = spec_scan_param(prev, has_ident, pos)->Ok_0;
        let sc = spec_scan_param(attrs, has_ident, pos)->Ok_0;
        lemma_positions_step(sc0.serde, sc.serde, attrs, |a: ParamAttr| a is Serde);
        lemma_positions_step(sc0.schemars, sc.schemars, attrs, |a: ParamAttr| a is Schemars);
        lemma_positions_step(sc0.kept, sc.kept, attrs, |a: ParamAttr| a is Other);
    }
}

proof fn lemma_positions_step(
    before: Seq<usize>,
    after: Seq<usize>,
    attrs: Seq<ParamAttr>,
    kind: spec_fn(ParamAttr) -> bool,
)
    requires
        0 < attrs.len() <= usize::MAX,
        lists_positions_of(before, attrs.drop_last(), kind),
        kind(attrs.last()) ==> after == before.push((attrs.len() - 1) as usize),
        !kind(attrs.last()) ==> after == before,
    ensures
        lists_positions_of(after, attrs, kind),
{
    let prev = attrs.drop_last();
    let n = attrs.len() - 1;
    assert forall|j: int| 0 <= j < attrs.len() implies (after.contains(j as usize) <==> kind(
        attrs[j],
    )) by {
        if j < n {
            assert(prev[j] == attrs[j]);
            if after.contains(j as usize) {
                let k = choose|k: int| 0 <= k < after.len() && after[k] == j as usize;
                if k < before.len() {
                    assert(before[k] == j as usize);
                }
            }
            if before.contains(j as usize) {
                let k = choose|k: int| 0 <= k < before.len() && before[k] == j as usize;
                if kind(attrs.last()) {
                    assert(after[k] == j as usize);
                }
            }
        } else {
            if kind(attrs.last()) {
                assert(after[before.len() as int] == n as usize);
            } else if after.contains(j as usize) {
                let k = choose|k: int| 0 <= k < after.len() && after[k] == j as usize;
                assert(before[k] < prev.len());
            }
        }
    }
}

/// The marker of a parameter that is accepted is the one of its last
/// `tool` attribute, and it has none when it has no `tool` attribute.
pub proof fn law_scan_last_marker_wins(attrs: Seq<ParamAttr>, has_ident: bool, pos: usize)
    requires
        attrs.len() <= usize::MAX,
        spec_scan_param(attrs, has_ident, pos) is Ok,
    ensures
        ({
            let sc = spec_scan_param(attrs, has_ident, pos)->Ok_0;
            &&& sc.marker is None <==> forall|j: int| 0 <= j < attrs.len() ==> !(attrs[j] is Tool)
            &&& forall|j: int|
                0 <= j < attrs.len() && attrs[j] is Tool && (forall|k: int|
                    j < k < attrs.len() ==> !(#[trigger] attrs[k] is Tool)) ==> attrs[j]
                    == ParamAttr::Tool(sc.marker)
        }),
    decreases attrs.len(),
{
    if attrs.len() > 0 {
        let prev = attrs.drop_last();
        law_scan_last_marker_wins(prev, has_ident, pos);
        let n = attrs.len() - 1;
        assert forall|j: int| 0 <= j < n implies prev[j] == attrs[j] by {}
        if !(attrs.last() is Tool) {
            assert forall|j: int|
                0 <= j < attrs.len() && attrs[j] is Tool && (forall|k: int|
                    j < k < attrs.len() ==> !(#[trigger] attrs[k] is Tool)) implies attrs[j]
                == ParamAttr::Tool(spec_scan_param(attrs, has_ident, pos)->Ok_0.marker) by {
                assert forall|k: int| j < k < prev.len() implies !(#[trigger] prev[k] is Tool) by {
                    assert(prev[k] == attrs[k]);
                }
            }
        }
    }
}

/// A parameter is accepted when each of its `tool` attributes names a
/// marker, and a `param` marker stands at most once and only on a named
/// parameter.
pub proof fn law_scan_accepts_well_marked(attrs: Seq<ParamAttr>, has_ident: bool, pos: usize)
    requires
        forall|j: int| 0 <= j < attrs.len() ==> attrs[j] != ParamAttr::Tool(None),
        forall|j: int|
            0 <= j < attrs.len() && attrs[j] == ParamAttr::Tool(Some(ParamMarker::Param)) ==> has_ident
                && forall|k: int|
                0 <= k < attrs.len() && k != j ==> attrs[k] != ParamAttr::Tool(
                    Some(ParamMarker::Param),
                ),
    ensures
        spec_scan_param(attrs, has_ident, pos) is Ok,
        spec_scan_param(attrs, has_ident, pos)->Ok_0.ident_free <==> (has_ident && forall|j: int|
            0 <= j < attrs.len() ==> attrs[j] != ParamAttr::Tool(Some(ParamMarker::Param))),
    decreases attrs.len(),
{
    if attrs.len() > 0 {
        let prev = attrs.drop_last();
        let n = attrs.len() - 1;
        assert forall|j: int| 0 <= j < n implies prev[j] == attrs[j] by {}
        law_scan_accepts_well_marked(prev, has_ident, pos);
        if attrs.last() == ParamAttr::Tool(Some(ParamMarker::Param)) {
            assert forall|j: int| 0 <= j < prev.len() implies prev[j] != ParamAttr::Tool(
                Some(ParamMarker::Param),
            ) by {
                assert(prev[j] == attrs[j]);
            }
        }
    }
}

/// A `tool` attribute that names no marker refuses the parameter.
pub proof fn law_scan_refuses_unknown_marker(attrs: Seq<ParamAttr>, has_ident: bool, pos: usize, j: int)
    requires
        0 <= j < attrs.len(),
        attrs[j] == ParamAttr::Tool(None),
    ensures
        spec_scan_param(attrs, has_ident, pos) is Err,
{
    let t = attrs.take(j + 1);
    assert(t.drop_last() =~= attrs.take(j));
    lemma_scan_error_stays(attrs, has_ident, pos, j + 1);
}

/// A `param` marker on a parameter without a name, or on one that already
/// carries a `param` marker, refuses the parameter.
pub proof fn law_scan_refuses_param_without_name(
    attrs: Seq<ParamAttr>,
    has_ident: bool,
    pos: usize,
    j: int,
)
    requires
        0 <= j < attrs.len(),
        attrs[j] == ParamAttr::Tool(Some(ParamMarker::Param)),
        !has_ident || exists|k: int| 0 <= k < j && attrs[k] == ParamAttr::Tool(Some(ParamMarker::Param)),
    ensures
        spec_scan_param(attrs, has_ident, pos) is Err,
{
    let t = attrs.take(j + 1);
    assert(t.drop_last() =~= attrs.take(j));
    if spec_scan_param(attrs.take(j), has_ident, pos) is Ok {
        lemma_scan_ident_free(attrs.take(j), has_ident, pos);
        if has_ident {
            let k = choose|k: int| 0 <= k < j && attrs[k] == ParamAttr::Tool(Some(ParamMarker::Param));
            assert(attrs.take(j)[k] == attrs[k]);
        }
    }
    lemma_scan_error_stays(attrs, has_ident, pos, j + 1);
}

proof fn lemma_scan_ident_free(attrs: Seq<ParamAttr>, has_ident: bool, pos: usize)
    requires
        spec_scan_param(attrs, has_ident, pos) is Ok,
    ensures
        spec_scan_param(attrs, has_ident, pos)->Ok_0.ident_free <==> (has_ident && forall|j: int|
            0 <= j < attrs.len() ==> attrs[j] != ParamAttr::Tool(Some(ParamMarker::Param))),
    decreases attrs.len(),
{
    if attrs.len() > 0 {
        let prev = attrs.drop_last();
        assert forall|j: int| 0 <= j < prev.len() implies prev[j] == attrs[j] by {}
        lemma_scan_ident_free(prev, has_ident, pos);
    }
}

/// How the attributes of one parameter were sorted.
#[derive(Debug)]
pub struct ParamScan {
    pub marker: Option<ParamMarker>,
    pub marker_kept: usize,
    pub ident_free: bool,
    pub kept: Vec<usize>,
    pub serde: Vec<usize>,
    pub schemars: Vec<usize>,
}

impl View for ParamScan {
    type V = ParamScanView;

    open spec fn view(&self) -> ParamScanView {
        ParamScanView {
            marker: self.marker,
            marker_kept: self.marker_kept as nat,
            ident_free: self.ident_free,
            kept: self.kept@,
            serde: self.serde@,
            schemars: self.schemars@,
        }
    }
}

proof fn lemma_scan_error_stays(attrs: Seq<ParamAttr>, has_ident: bool, pos: usize, n: int)
    requires
        0 <= n <= attrs.len(),
        spec_scan_param(attrs.take(n), has_ident, pos) is Err,
    ensures
        spec_scan_param(attrs, has_ident, pos) == spec_scan_param(attrs.take(n), has_ident, pos),
    decreases attrs.len() - n,
{
    if n < attrs.len() {
        assert(attrs.take(n + 1).drop_last() =~= attrs.take(n));
        lemma_scan_error_stays(attrs, has_ident, pos, n + 1);
    } else {
        assert(attrs.take(n) =~= attrs);
    }
}

/// Sorts the attributes of the parameter at position `pos`.
pub fn scan_param(attrs: &Vec<ParamAttr>, has_ident: bool, pos: usize) -> (r: Result<
    ParamScan,
    ToolMacroError,
>)
    ensures
        match r {
            Ok(sc) => spec_scan_param(attrs@, has_ident, pos) == Ok::<ParamScanView, ToolMacroError>(
                sc@,
            ),
            Err(e) => spec_scan_param(attrs@, has_ident, pos) == Err::<ParamScanView, ToolMacroError>(
                e,
            ),
        },
{
    let mut st = ParamScan {
        marker: None,
        marker_kept: 0,
        ident_free: has_ident,
        kept: Vec::new(),
        serde: Vec::new(),
        schemars: Vec::new(),
    };
    let mut j: usize = 0;
    assert(attrs@.take(0) =~= Seq::<ParamAttr>::empty());
    while j < attrs.len()
        invariant
            j <= attrs@.len(),
            st.kept@.len() <= j,
            spec_scan_param(attrs@.take(j as int), has_ident, pos) == Ok::<
                ParamScanView,
                ToolMacroError,
            >(st@),
        decreases attrs@.len() - j,
    {
        assert(attrs@.take(j + 1).drop_last() =~= attrs@.take(j as int));
        assert(attrs@.take(j + 1).last() == attrs@[j as int]);
        match attrs[j] {
            ParamAttr::Tool(None) => {
                proof {
                    lemma_scan_error_stays(attrs@, has_ident, pos, j + 1);
                }
                return Err(ToolMacroError::UnknownMarker(pos));
            },
            ParamAttr::Tool(Some(ParamMarker::Param)) => {
                if st.ident_free {
                    st.marker = Some(ParamMarker::Param);
                    st.marker_kept = st.kept.len();
                    st.ident_free = false;
                } else {
                    proof {
                        lemma_scan_error_stays(attrs@, has_ident, pos, j + 1);
                    }
                    return Err(ToolMacroError::ParamWithoutIdent(pos));
                }
            },
            ParamAttr::Tool(Some(ParamMarker::Aggregated)) => {
                st.marker = Some(ParamMarker::Aggregated);
                st.marker_kept = st.kept.len();
            },
            ParamAttr::Serde => {
                st.serde.push(j);
            },
            ParamAttr::Schemars => {
                st.schemars.push(j);
            },
            ParamAttr::Other => {
                st.kept.push(j);
            },
        }
        j = j + 1;
    }
    assert(attrs@.take(attrs@.len() as int) =~= attrs@);
    Ok(st)
}

/// What the tool's parameters are, as a whole.
pub enum ToolParamsView {
    /// The parameter at this position holds all the arguments.
    Aggregated(usize),
    /// The parameters at these positions are the arguments' fields.
    Params(Seq<usize>),
    NoParam,
}

/// How the parameters of the function were sorted.
pub struct ToolPlanView {
    pub params: ToolParamsView,
    /// Positions of the parameters that stay in the function's signature.
    pub kept_params: Seq<usize>,
    /// For each parameter, how its attributes were sorted (nothing for `self`).
    pub scans: Seq<Option<ParamScanView>>,
}

pub open spec fn param_view(p: FnParam) -> (bool, bool, Seq<ParamAttr>) {
    (p.is_receiver, p.has_ident, p.attrs@)
}

/// Sorts the parameters from the left. A `param` parameter joins the list
/// of fields, starting a new list after an aggregated one; an aggregated
/// parameter replaces whatever was found before.
pub open spec fn spec_plan(params: Seq<(bool, bool, Seq<ParamAttr>)>) -> Result<
    ToolPlanView,
    ToolMacroError,
>
    decreases params.len(),
{
    if params.len() == 0 {
        Ok(ToolPlanView { params: ToolParamsView::NoParam, kept_params: Seq::empty(), scans: Seq::empty() })
    } else {
        let i = (params.len() - 1) as usize;
        let (is_receiver, has_ident, attrs) = params.last();
        match spec_plan(params.drop_last()) {
            Err(e) => Err(e),
            Ok(pl) => if is_receiver {
                Ok(ToolPlanView { kept_params: pl.kept_params.push(i), scans: pl.scans.push(None), ..pl })
            } else {
                match spec_scan_param(attrs, has_ident, i) {
                    Err(e) => Err(e),
                    Ok(sc) => {
                        let scans = pl.scans.push(Some(sc));
                        match sc.marker {
                            Some(ParamMarker::Param) => Ok(
                                ToolPlanView {
                                    params: match pl.params {
                                        ToolParamsView::Params(ps) => ToolParamsView::Params(ps.push(i)),
                                        _ => ToolParamsView::Params(seq![i]),
                                    },
                                    scans,
                                    ..pl
                                },
                            ),
                            Some(ParamMarker::Aggregated) => Ok(
                                ToolPlanView { params: ToolParamsView::Aggregated(i), scans, ..pl },
                            ),
                            None => Ok(
                                ToolPlanView { kept_params: pl.kept_params.push(i), scans, ..pl },
                            ),
                        }
                    },
                }
            },
        }
    }
}

/// What the tool's parameters are, as a whole.
#[derive(Debug)]
pub enum ToolParams {
    Aggregated(usize),
    Params(Vec<usize>),
    NoParam,
}

impl View for ToolParams {
    type V = ToolParamsView;

    open spec fn view(&self) -> ToolParamsView {
        match self {
            ToolParams::Aggregated(i) => ToolParamsView::Aggregated(*i),
            ToolParams::Params(v) => ToolParamsView::Params(v@),
            ToolParams::NoParam => ToolParamsView::NoParam,
        }
    }
}

/// How the parameters of the function were sorted.
#[derive(Debug)]
pub struct ToolPlan {
    pub params: ToolParams,
    pub kept_params: Vec<usize>,
    pub scans: Vec<Option<ParamScan>>,
}

pub open spec fn scan_opt_view(s: Option<ParamScan>) -> Option<ParamScanView> {
    match s {
        Some(sc) => Some(sc@),
        None => None,
    }
}

impl View for ToolPlan {
    type V = ToolPlanView;

    open spec fn view(&self) -> ToolPlanView {
        ToolPlanView {
            params: self.params@,
            kept_params: self.kept_params@,
            scans: self.scans@.map_values(|s: Option<ParamScan>| scan_opt_view(s)),
        }
    }
}

proof fn lemma_plan_error_stays(params: Seq<(bool, bool, Seq<ParamAttr>)>, n: int)
    requires
        0 <= n <= params.len(),
        spec_plan(params.take(n)) is Err,
    ensures
        spec_plan(params) == spec_plan(params.take(n)),
    decreases params.len() - n,
{
    if n < params.len() {
        assert(params.take(n + 1).drop_last() =~= params.take(n));
        lemma_plan_error_stays(params, n + 1);
    } else {
        assert(params.take(n) =~= params);
    }
}

/// Sorts the parameters of the function that the attribute is put on.
pub fn plan_params(params: &Vec<FnParam>) -> (r: Result<ToolPlan, ToolMacroError>)
    ensures
        match r {
            Ok(pl) => spec_plan(params@.map_values(|p: FnParam| param_view(p))) == Ok::<
                ToolPlanView,
                ToolMacroError,
            >(pl@),
            Err(e) => spec_plan(params@.map_values(|p: FnParam| param_view(p))) == Err::<
                ToolPlanView,
                ToolMacroError,
            >(e),
        },
{
    let ghost ps = params@.map_values(|p: FnParam| param_view(p));
    let mut shape = ToolParams::NoParam;
    let mut kept_params: Vec<usize> = Vec::new();
    let mut scans: Vec<Option<ParamScan>> = Vec::new();
    let mut i: usize = 0;
    assert(ps.take(0) =~= Seq::<(bool, bool, Seq<ParamAttr>)>::empty());
    assert(scans@.map_values(|s: Option<ParamScan>| scan_opt_view(s)) =~= Seq::<
        Option<ParamScanView>,
    >::empty());
    while i < params.len()
        invariant
            i <= params@.len(),
            ps == params@.map_values(|p: FnParam| param_view(p)),
            spec_plan(ps.take(i as int)) == Ok::<ToolPlanView, ToolMacroError>(
                ToolPlanView {
                    params: shape@,
                    kept_params: kept_params@,
                    scans: scans@.map_values(|s: Option<ParamScan>| scan_opt_view(s)),
                },
            ),
        decreases params@.len() - i,
    {
        assert(ps.take(i + 1).drop_last() =~= ps.take(i as int));
        assert(ps.take(i + 1).last() == param_view(params@[i as int]));
        let ghost old_scans = scans@;
        let p = &params[i];
        if p.is_receiver {
            kept_params.push(i);
            scans.push(None);
        } else {
            let sc = match scan_param(&p.attrs, p.has_ident, i) {
                Ok(sc) => sc,
                Err(e) => {
                    proof {
                        lemma_plan_error_stays(ps, i + 1);
                    }
                    return Err(e);
                },
            };
            match sc.marker {
                Some(ParamMarker::Param) => {
                    shape = match shape {
                        ToolParams::Params(mut v) => {
                            v.push(i);
                            ToolParams::Params(v)
                        },
                        _ => {
                            let mut v: Vec<usize> = Vec::new();
                            v.push(i);
                            assert(v@ =~= seq![i]);
                            ToolParams::Params(v)
                        },
                    };
                },
                Some(ParamMarker::Aggregated) => {
                    shape = ToolParams::Aggregated(i);
                },
                None => {
                    kept_params.push(i);
                },
            }
            scans.push(Some(sc));
        }
        assert(scans@.map_values(|s: Option<ParamScan>| scan_opt_view(s)) =~= old_scans.map_values(
            |s: Option<ParamScan>| scan_opt_view(s),
        ).push(scan_opt_view(scans@.last())));
        i = i + 1;
    }
    assert(ps.take(params@.len() as int) =~= ps);
    Ok(ToolPlan { params: shape, kept_params, scans })
}

/// Whether the parameter was found to carry a `param` or aggregating marker.
pub open spec fn marked(sc: Option<ParamScanView>) -> bool {
    sc matches Some(v) && v.marker is Some
}

/// Every parameter is looked at once, and the ones that stay in the
/// function's signature are exactly `self` and the parameters without a
/// marker, in their order.
pub proof fn law_plan_keeps_unmarked(params: Seq<(bool, bool, Seq<ParamAttr>)>)
    requires
        params.len() <= usize::MAX,
        spec_plan(params) is Ok,
    ensures
        ({
            let pl = spec_plan(params)->Ok_0;
            &&& pl.scans.len() == params.len()
            &&& forall|i: int| 0 <= i < params.len() ==> (params[i].0 <==> pl.scans[i] is None)
            &&& forall|i: int|
                0 <= i < params.len() ==> (pl.kept_params.contains(i as usize) <==> !marked(
                    pl.scans[i],
                ))
            &&& forall|a: int, b: int|
                0 <= a < b < pl.kept_params.len() ==> pl.kept_params[a] < pl.kept_params[b]
            &&& forall|a: int| 0 <= a < pl.kept_params.len() ==> pl.kept_params[a] < params.len()
        }),
    decreases params.len(),
{
    if params.len() > 0 {
        let prev = params.drop_last();
        law_plan_keeps_unmarked(prev);
        let pl0 = spec_plan(prev)->Ok_0;
        let pl = spec_plan(params)->Ok_0;
        let n = params.len() - 1;
        let pushed = pl.kept_params.len() == pl0.kept_params.len() + 1;
        assert(pushed ==> pl.kept_params == pl0.kept_params.push(n as usize));
        assert(!pushed ==> pl.kept_params == pl0.kept_params);
        assert(pushed <==> !marked(pl.scans[n]));
        assert(pl.scans == pl0.scans.push(pl.scans[n]));
        assert forall|i: int| 0 <= i < params.len() implies (params[i].0 <==> pl.scans[i] is None) by {
            if i < n {
                assert(prev[i] == params[i]);
            }
        }
        assert forall|i: int| 0 <= i < params.len() implies (pl.kept_params.contains(i as usize)
            <==> !marked(pl.scans[i])) by {
            if i < n {
                assert(prev[i] == params[i]);
                if pl.kept_params.contains(i as usize) {
                    let k = choose|k: int|
                        0 <= k < pl.kept_params.len() && pl.kept_params[k] == i as usize;
                    if pushed && k == pl0.kept_params.len() {
                        assert(false);
                    }
                    assert(pl0.kept_params[k] == i as usize);
                }
                if pl0.kept_params.contains(i as usize) {
                    let k = choose|k: int|
                        0 <= k < pl0.kept_params.len() && pl0.kept_params[k] == i as usize;
                    assert(pl.kept_params[k] == i as usize);
                }
            } else {
                if pushed {
                    assert(pl.kept_params[pl0.kept_params.len() as int] == n as usize);
                } else if pl.kept_params.contains(n as usize) {
                    let k = choose|k: int|
                        0 <= k < pl.kept_params.len() && pl.kept_params[k] == n as usize;
                    assert(pl0.kept_params[k] < prev.len());
                }
            }
        }
    }
}

/// The marker found on the parameter at position `i`, if any.
pub open spec fn marker_at(pl: ToolPlanView, i: int) -> Option<ParamMarker> {
    match pl.scans[i] {
        Some(v) => v.marker,
        None => None,
    }
}

/// No parameter after position `i` is aggregated.
pub open spec fn no_aggregated_after(pl: ToolPlanView, i: int) -> bool {
    forall|k: int| i < k < pl.scans.len() ==> marker_at(pl, k) != Some(ParamMarker::Aggregated)
}

/// What the tool's arguments are: with no marker, none; else the last
/// aggregated parameter, when no marker follows it; else the `param`
/// parameters that follow the last aggregated one, in order.
pub proof fn law_plan_fields(params: Seq<(bool, bool, Seq<ParamAttr>)>)
    requires
        params.len() <= usize::MAX,
        spec_plan(params) is Ok,
    ensures
        ({
            let pl = spec_plan(params)->Ok_0;
            &&& pl.scans.len() == params.len()
            &&& pl.params is NoParam ==> forall|i: int| 0 <= i < params.len() ==> marker_at(pl, i) is None
            &&& pl.params matches ToolParamsView::Aggregated(j) ==> {
                &&& j < params.len()
                &&& marker_at(pl, j as int) == Some(ParamMarker::Aggregated)
                &&& forall|k: int| j < k < params.len() ==> marker_at(pl, k) is None
            }
            &&& pl.params matches ToolParamsView::Params(ps) ==> {
                &&& ps.len() > 0
                &&& forall|a: int, b: int| 0 <= a < b < ps.len() ==> ps[a] < ps[b]
                &&& forall|a: int| 0 <= a < ps.len() ==> ps[a] < params.len()
                &&& forall|i: int|
                    0 <= i < params.len() ==> (ps.contains(i as usize) <==> (marker_at(pl, i) == Some(
                        ParamMarker::Param,
                    ) && no_aggregated_after(pl, i)))
            }
        }),
    decreases params.len(),
{
    if params.len() > 0 {
        let prev = params.drop_last();
        law_plan_fields(prev);
        let pl0 = spec_plan(prev)->Ok_0;
        let pl = spec_plan(params)->Ok_0;
        let n = params.len() - 1;
        assert(pl.scans == pl0.scans.push(pl.scans[n]));
        assert forall|i: int| 0 <= i < n implies marker_at(pl, i) == marker_at(pl0, i) by {
            assert(pl.scans[i] == pl0.scans[i]);
        }
        let m = marker_at(pl, n);
        if m is None {
            assert(pl.params == pl0.params);
            match pl.params {
                ToolParamsView::Params(ps) => {
                    assert forall|i: int| 0 <= i < params.len() implies (ps.contains(i as usize) <==> (
                    marker_at(pl, i) == Some(ParamMarker::Param) && no_aggregated_after(pl, i))) by {
                        if i < n {
                            assert(no_aggregated_after(pl, i) == no_aggregated_after(pl0, i));
                        } else {
                            if ps.contains(n as usize) {
                                let k = choose|k: int| 0 <= k < ps.len() && ps[k] == n as usize;
                                assert(ps[k] < prev.len());
                            }
                        }
                    }
                },
                _ => {},
            }
        } else if m == Some(ParamMarker::Aggregated) {
            assert(pl.params == ToolParamsView::Aggregated(n as usize));
        } else {
            assert(m == Some(ParamMarker::Param));
            match pl0.params {
                ToolParamsView::Params(ps0) => {
                    assert(pl.params == ToolParamsView::Params(ps0.push(n as usize)));
                    let ps = ps0.push(n as usize);
                    assert forall|i: int| 0 <= i < params.len() implies (ps.contains(i as usize) <==> (
                    marker_at(pl, i) == Some(ParamMarker::Param) && no_aggregated_after(pl, i))) by {
                        if i < n {
                            assert(no_aggregated_after(pl, i) == no_aggregated_after(pl0, i));
                            if ps.contains(i as usize) {
                                let k = choose|k: int| 0 <= k < ps.len() && ps[k] == i as usize;
                                if k < ps0.len() {
                                    assert(ps0[k] == i as usize);
                                }
                            }
                            if ps0.contains(i as usize) {
                                let k = choose|k: int| 0 <= k < ps0.len() && ps0[k] == i as usize;
                                assert(ps[k] == i as usize);
                            }
                        } else {
                            assert(ps[ps0.len() as int] == n as usize);
                        }
                    }
                },
                _ => {
                    let ps = seq![n as usize];
                    assert(pl.params == ToolParamsView::Params(ps));
                    assert forall|i: int| 0 <= i < params.len() implies (ps.contains(i as usize) <==> (
                    marker_at(pl, i) == Some(ParamMarker::Param) && no_aggregated_after(pl, i))) by {
                        if i < n {
                            if marker_at(pl, i) == Some(ParamMarker::Param) && no_aggregated_after(pl, i) {
                                match pl0.params {
                                    ToolParamsView::Aggregated(j) => {
                                        assert(marker_at(pl, j as int) == Some(ParamMarker::Aggregated));
                                        assert(i < j);
                                        assert(false);
                                    },
                                    _ => {
                                        assert(marker_at(pl0, i) is None);
                                    },
                                }
                            }
                            if ps.contains(i as usize) {
                                assert(ps[0] == n as usize);
                            }
                        } else {
                            assert(ps[0] == n as usize);
                        }
                    }
                },
            }
        }
    }
}

/// `str::to_ascii_uppercase`, as its documentation states it: `a` to `z`
/// become `A` to `Z`, every other character stays.
pub open spec fn ascii_upper(c: char) -> char {
    if 'a' <= c && c <= 'z' {
        ((c as int) - 32) as char
    } else {
        c
    }
}

#[verifier::external_body]
fn to_ascii_uppercase(s: &str) -> (r: String)
    ensures
        r@ == s@.map_values(|c: char| ascii_upper(c)),
{
    s.to_ascii_uppercase()
}

/// The name of the generated function that describes the tool.
pub fn tool_attr_fn_name(fn_name: &str) -> (r: String)
    ensures
        r@ == fn_name@ + "_tool_attr"@,
{
    String::from_str(fn_name).concat("_tool_attr")
}

/// The name of the generated function that reads the arguments and calls
/// the tool.
pub fn call_fn_name(fn_name: &str) -> (r: String)
    ensures
        r@ == fn_name@ + "_call"@,
{
    String::from_str(fn_name).concat("_call")
}

/// The name of the generated type that holds a tool's arguments.
pub fn request_type_name(tool_name: &str) -> (r: String)
    ensures
        r@ == "__"@ + tool_name@.map_values(|c: char| ascii_upper(c)) + "ToolCallParam"@,
{
    let upper = to_ascii_uppercase(tool_name);
    String::from_str("__").concat(upper.as_str()).concat("ToolCallParam")
}

/// The attribute's arguments are accepted exactly when each key is `name`
/// or `description`.
pub proof fn law_item_attrs_accepts_known_keys(keys: Seq<Seq<char>>)
    ensures
        spec_item_attrs(keys) is Ok <==> (forall|i: int|
            0 <= i < keys.len() ==> #[trigger] keys[i] == "name"@ || keys[i] == "description"@),
    decreases keys.len(),
{
    if keys.len() > 0 {
        law_item_attrs_accepts_known_keys(keys.drop_last());
        if spec_item_attrs(keys) is Ok {
            assert forall|i: int| 0 <= i < keys.len() implies #[trigger] keys[i] == "name"@ || keys[i]
                == "description"@ by {
                if i < keys.len() - 1 {
                    assert(keys.drop_last()[i] == keys[i]);
                }
            }
        } else {
            if spec_item_attrs(keys.drop_last()) is Err {
                let i = choose|i: int|
                    0 <= i < keys.drop_last().len() && !(#[trigger] keys.drop_last()[i] == "name"@
                        || keys.drop_last()[i] == "description"@);
                assert(keys[i] == keys.drop_last()[i]);
            } else {
                assert(!(keys[keys.len() - 1] == "name"@ || keys[keys.len() - 1] == "description"@));
            }
        }
    }
}

/// The last `name` (and the last `description`) given counts.
pub proof fn law_item_attrs_last_wins(keys: Seq<Seq<char>>)
    requires
        keys.len() > 0,
        keys.last() == "name"@,
        spec_item_attrs(keys.drop_last()) is Ok,
    ensures
        spec_item_attrs(keys) matches Ok(a) && a.name == Some((keys.len() - 1) as usize),
{
}

} // verus!
