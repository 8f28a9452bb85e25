use vstd::prelude::*;
use crate::components::{Component, ComponentV};
use crate::styles::PuppetStyle;

verus! {

/// One instruction of a render pass, handed to the environment in order.
///
/// The environment keeps a stack of elements under construction:
/// `CreateElement` makes a fresh generic container element and pushes it;
/// the id, property and component instructions address the element on top
/// of the stack; `AppendToParent` pops the top element and appends it into
/// the element below it, or into the mount element when none is below.
#[derive(Debug, PartialEq, Eq, Clone)]
pub enum RenderOp {
    CreateElement,
    SetElementId(&'static str),
    SetCssProperty(&'static str, String),
    AppendComponent(Component),
    AppendToParent,
}

/// The spec-level value of a render instruction.
pub enum RenderOpV {
    CreateElement,
    SetElementId(Seq<char>),
    SetCssProperty(Seq<char>, Seq<char>),
    AppendComponent(ComponentV),
    AppendToParent,
}

impl View for RenderOp {
    type V = RenderOpV;

    open spec fn view(&self) -> RenderOpV {
        match self {
            RenderOp::CreateElement => RenderOpV::CreateElement,
            RenderOp::SetElementId(id) => RenderOpV::SetElementId(id@),
            RenderOp::SetCssProperty(name, value) => RenderOpV::SetCssProperty(name@, value@),
            RenderOp::AppendComponent(c) => RenderOpV::AppendComponent(c@),
            RenderOp::AppendToParent => RenderOpV::AppendToParent,
        }
    }
}

/// The spec-level value of a whole instruction stream.
pub open spec fn ops_view(ops: Seq<RenderOp>) -> Seq<RenderOpV> {
    ops.map_values(|op: RenderOp| op@)
}

impl PuppetStyle {
    /// The nine property assignments of one style application, in their
    /// fixed order: margin, padding, width, height, min-width, min-height,
    /// max-width, max-height, background-color.
    pub open spec fn spec_to_html_ops(self) -> Seq<RenderOpV> {
        seq![
            RenderOpV::SetCssProperty("margin"@, self.margin.spec_to_html_units()),
            RenderOpV::SetCssProperty("padding"@, self.padding.spec_to_html_units()),
            RenderOpV::SetCssProperty("width"@, self.width.spec_to_html_units()),
            RenderOpV::SetCssProperty("height"@, self.height.spec_to_html_units()),
            RenderOpV::SetCssProperty("min-width"@, self.min_width.spec_to_html_units()),
            RenderOpV::SetCssProperty("min-height"@, self.min_height.spec_to_html_units()),
            RenderOpV::SetCssProperty("max-width"@, self.max_width.spec_to_html_units()),
            RenderOpV::SetCssProperty("max-height"@, self.max_height.spec_to_html_units()),
            RenderOpV::SetCssProperty(
                "background-color"@,
                self.background_color.spec_to_html_color(),
            ),
        ]
    }

    /// The style application of the render protocol: one property
    /// assignment per instruction, in the fixed order. A failing
    /// assignment aborts the pass at that instruction; the earlier ones
    /// remain applied.
    pub fn to_html(&self) -> (ops: Vec<RenderOp>)
        ensures
            ops_view(ops@) == self.spec_to_html_ops(),
    {
        let mut ops: Vec<RenderOp> = Vec::new();
        ops.push(RenderOp::SetCssProperty("margin", self.margin.to_html_units()));
        ops.push(RenderOp::SetCssProperty("padding", self.padding.to_html_units()));
        ops.push(RenderOp::SetCssProperty("width", String::from_str(self.width.to_html_units())));
        ops.push(
            RenderOp::SetCssProperty("height", String::from_str(self.height.to_html_units())),
        );
        ops.push(RenderOp::SetCssProperty("min-width", self.min_width.to_html_units()));
        ops.push(RenderOp::SetCssProperty("min-height", self.min_height.to_html_units()));
        ops.push(RenderOp::SetCssProperty("max-width", self.max_width.to_html_units()));
        ops.push(RenderOp::SetCssProperty("max-height", self.max_height.to_html_units()));
        ops.push(
            RenderOp::SetCssProperty("background-color", self.background_color.to_html_color()),
        );
        proof {
            assert(ops_view(ops@) =~= self.spec_to_html_ops());
        }
        ops
    }
}

/// The identifier assignment of one node: one instruction when an id is
/// set, none otherwise.
pub open spec fn spec_id_ops(id: Option<Seq<char>>) -> Seq<RenderOpV> {
    match id {
        Some(s) => seq![RenderOpV::SetElementId(s)],
        None => Seq::empty(),
    }
}

/// The spec-level value of a row.
pub struct RowV {
    pub id: Option<Seq<char>>,
    pub style: PuppetStyle,
    pub components: Seq<ComponentV>,
}

impl RowV {
    /// An identifier, when set, is never empty; the builder keeps it so.
    pub open spec fn wf(self) -> bool {
        match self.id {
            Some(s) => s.len() > 0,
            None => true,
        }
    }
}

/// The instruction stream that renders one row: create the container,
/// assign the id if one is set, apply the style, append each component in
/// insertion order, then append the container into its parent.
pub open spec fn spec_row_ops(r: RowV) -> Seq<RenderOpV> {
    seq![RenderOpV::CreateElement] + spec_id_ops(r.id) + r.style.spec_to_html_ops()
        + r.components.map_values(|c: ComponentV| RenderOpV::AppendComponent(c)) + seq![
        RenderOpV::AppendToParent,
    ]
}

/// A horizontal grouping of components, with an optional identifier and a
/// style of its own.
#[derive(Debug, PartialEq, Eq, Clone)]
pub struct PuppetRow {
    pub column_id: Option<&'static str>,
    pub style: PuppetStyle,
    pub components: Vec<Component>,
}

impl View for PuppetRow {
    type V = RowV;

    open spec fn view(&self) -> RowV {
        RowV {
            id: match self.column_id {
                Some(s) => Some(s@),
                None => None,
            },
            style: self.style,
            components: self.components@.map_values(|c: Component| c@),
        }
    }
}

impl PuppetRow {
    /// An empty row under the default style, with no identifier.
    pub fn new() -> (r: Self)
        ensures
            r@.wf(),
            r@.id is None,
            r@.style == PuppetStyle::spec_default(),
            r@.components == Seq::<ComponentV>::empty(),
    {
        let r = PuppetRow { column_id: None, style: PuppetStyle::default(), components: Vec::new() };
        proof {
            assert(r@.components =~= Seq::<ComponentV>::empty());
        }
        r
    }

    /// Sets the identifier; an empty id clears it, so that an id, when
    /// set, is never empty.
    pub fn column_id(&mut self, id: &'static str)
        ensures
            final(self)@.wf(),
            id@.len() > 0 ==> final(self)@.id == Some(id@),
            id@.len() == 0 ==> final(self)@.id is None,
            final(self)@.style == old(self)@.style,
            final(self)@.components == old(self)@.components,
    {
        if !id.is_empty() {
            self.column_id = Some(id);
        } else {
            self.column_id = None;
        }
    }

    /// Replaces the row's style.
    pub fn set_style(&mut self, style: &PuppetStyle)
        ensures
            final(self)@.style == *style,
            final(self)@.id == old(self)@.id,
            final(self)@.components == old(self)@.components,
    {
        self.style = *style;
    }

    /// Appends one component after those already owned.
    pub fn add_component(&mut self, component: Component)
        ensures
            final(self)@.components == old(self)@.components.push(component@),
            final(self)@.id == old(self)@.id,
            final(self)@.style == old(self)@.style,
    {
        self.components.push(component);
        proof {
            assert(final(self)@.components =~= old(self)@.components.push(component@));
        }
    }

    /// The render pass of the row: the exact instruction stream that
    /// creates its element, styles it, and appends its components in
    /// insertion order.
    pub fn to_html(&self) -> (ops: Vec<RenderOp>)
        ensures
            ops_view(ops@) == spec_row_ops(self@),
    {
        let ghost header: Seq<RenderOpV> = seq![RenderOpV::CreateElement] + spec_id_ops(self@.id)
            + self.style.spec_to_html_ops();
        let mut ops: Vec<RenderOp> = Vec::new();
        ops.push(RenderOp::CreateElement);
        match self.column_id {
            Some(id) => ops.push(RenderOp::SetElementId(id)),
            None => (),
        }
        let mut style_ops = self.style.to_html();
        ops.append(&mut style_ops);
        proof {
            assert(ops_view(ops@) =~= header);
        }
        let mut i: usize = 0;
        while i < self.components.len()
            invariant
                i <= self.components@.len(),
                ops_view(ops@) == header + self@.components.take(i as int).map_values(
                    |c: ComponentV| RenderOpV::AppendComponent(c),
                ),
            decreases self.components@.len() - i,
        {
            let comp = self.components[i];
            let ghost prev = ops@;
            ops.push(RenderOp::AppendComponent(comp));
            proof {
                assert(ops_view(ops@) =~= ops_view(prev).push(RenderOpV::AppendComponent(comp@)));
                assert(self@.components.take(i + 1) =~= self@.components.take(i as int).push(
                    comp@,
                ));
                assert((header + self@.components.take(i + 1).map_values(
                    |c: ComponentV| RenderOpV::AppendComponent(c),
                )) =~= ops_view(prev).push(RenderOpV::AppendComponent(comp@)));
            }
            i += 1;
        }
        ops.push(RenderOp::AppendToParent);
        proof {
            assert(self@.components.take(self.components@.len() as int) =~= self@.components);
            assert(ops_view(ops@) =~= spec_row_ops(self@));
        }
        ops
    }
}

/// The spec-level value of a column.
pub struct ColumnV {
    pub id: Option<Seq<char>>,
    pub style: PuppetStyle,
    pub rows: Seq<RowV>,
}

impl ColumnV {
    /// An identifier, when set, is never empty; the builder keeps it so.
    pub open spec fn wf(self) -> bool {
        match self.id {
            Some(s) => s.len() > 0,
            None => true,
        }
    }
}

/// The instruction streams of the first `n` rows, one after the other in
/// insertion order.
pub open spec fn spec_rows_ops(rows: Seq<RowV>, n: int) -> Seq<RenderOpV>
    decreases n,
{
    if n <= 0 {
        Seq::empty()
    } else {
        spec_rows_ops(rows, n - 1) + spec_row_ops(rows[n - 1])
    }
}

/// The instructions that open a column's own element: create it, assign
/// the id if one is set, apply the style.
pub open spec fn spec_column_header_ops(c: ColumnV) -> Seq<RenderOpV> {
    seq![RenderOpV::CreateElement] + spec_id_ops(c.id) + c.style.spec_to_html_ops()
}

/// The instruction stream that renders a whole column: its own element
/// first, then every row in insertion order, then the append into the
/// mount element.
pub open spec fn spec_column_ops(c: ColumnV) -> Seq<RenderOpV> {
    spec_column_header_ops(c) + spec_rows_ops(c.rows, c.rows.len() as int) + seq![
        RenderOpV::AppendToParent,
    ]
}

/// A top-level grouping of rows, with an optional identifier and a style
/// of its own.
#[derive(Debug, PartialEq, Eq, Clone)]
pub struct PuppetColumn {
    pub column_id: Option<&'static str>,
    pub style: PuppetStyle,
    pub rows: Vec<PuppetRow>,
}

impl View for PuppetColumn {
    type V = ColumnV;

    open spec fn view(&self) -> ColumnV {
        ColumnV {
            id: match self.column_id {
                Some(s) => Some(s@),
                None => None,
            },
            style: self.style,
            rows: self.rows@.map_values(|r: PuppetRow| r@),
        }
    }
}

impl PuppetColumn {
    /// An empty column under the default style, with no identifier.
    pub fn new() -> (c: Self)
        ensures
            c@.wf(),
            c@.id is None,
            c@.style == PuppetStyle::spec_default(),
            c@.rows == Seq::<RowV>::empty(),
    {
        let c = PuppetColumn { column_id: None, style: PuppetStyle::default(), rows: Vec::new() };
        proof {
            assert(c@.rows =~= Seq::<RowV>::empty());
        }
        c
    }

    /// Sets the identifier; an empty id clears it, so that an id, when
    /// set, is never empty.
    pub fn column_id(&mut self, id: &'static str)
        ensures
            final(self)@.wf(),
            id@.len() > 0 ==> final(self)@.id == Some(id@),
            id@.len() == 0 ==> final(self)@.id is None,
            final(self)@.style == old(self)@.style,
            final(self)@.rows == old(self)@.rows,
    {
        if !id.is_empty() {
            self.column_id = Some(id);
        } else {
            self.column_id = None;
        }
    }

    /// Replaces the column's style.
    pub fn set_style(&mut self, style: &PuppetStyle)
        ensures
            final(self)@.style == *style,
            final(self)@.id == old(self)@.id,
            final(self)@.rows == old(self)@.rows,
    {
        self.style = *style;
    }

    /// Appends one row after those already owned.
    pub fn add_row(&mut self, row: PuppetRow)
        ensures
            final(self)@.rows == old(self)@.rows.push(row@),
            final(self)@.id == old(self)@.id,
            final(self)@.style == old(self)@.style,
    {
        let ghost rv = row@;
        self.rows.push(row);
        proof {
            assert(final(self)@.rows =~= old(self)@.rows.push(rv));
        }
    }

    /// The render pass of the column: the exact instruction stream that
    /// creates its element, styles it, renders every row in insertion
    /// order, and appends the result into the mount element.
    pub fn to_html(&self) -> (ops: Vec<RenderOp>)
        ensures
            ops_view(ops@) == spec_column_ops(self@),
    {
        let mut ops: Vec<RenderOp> = Vec::new();
        ops.push(RenderOp::CreateElement);
        match self.column_id {
            Some(id) => ops.push(RenderOp::SetElementId(id)),
            None => (),
        }
        let mut style_ops = self.style.to_html();
        ops.append(&mut style_ops);
        proof {
            assert(ops_view(ops@) =~= spec_column_header_ops(self@));
        }
        let mut i: usize = 0;
        while i < self.rows.len()
            invariant
                i <= self.rows@.len(),
                ops_view(ops@) == spec_column_header_ops(self@) + spec_rows_ops(
                    self@.rows,
                    i as int,
                ),
            decreases self.rows@.len() - i,
        {
            let mut row_ops = self.rows[i].to_html();
            let ghost prev = ops@;
            let ghost row_ops_snap = row_ops@;
            ops.append(&mut row_ops);
            proof {
                assert(ops_view(ops@) =~= ops_view(prev) + ops_view(row_ops_snap));
                assert(ops_view(ops@) =~= spec_column_header_ops(self@) + spec_rows_ops(
                    self@.rows,
                    i + 1,
                ));
            }
            i += 1;
        }
        ops.push(RenderOp::AppendToParent);
        proof {
            assert(ops_view(ops@) =~= spec_column_ops(self@));
        }
        ops
    }
}

/// One render pass being driven against an environment: the instructions
/// that remain, and whether the environment has reported a hard failure.
///
/// The environment asks for one instruction at a time with `next_op`,
/// performs it, and calls `report_failure` when it could not: from then
/// on the session withholds every remaining instruction, so nothing more
/// is created, styled or appended.
pub struct RenderSession {
    pub ops: Vec<RenderOp>,
    pub failed: bool,
}

impl RenderSession {
    /// The instruction the session will hand out next: none once a
    /// failure was reported or the pass is complete.
    pub open spec fn spec_next_op(self) -> Option<RenderOp> {
        if self.failed || self.ops@.len() == 0 {
            None
        } else {
            Some(self.ops@[0])
        }
    }

    /// Starts a render pass for a column, with the column's full
    /// instruction stream ahead and no failure reported.
    pub fn new(column: &PuppetColumn) -> (s: Self)
        ensures
            ops_view(s.ops@) == spec_column_ops(column@),
            !s.failed,
    {
        RenderSession { ops: column.to_html(), failed: false }
    }

    /// Hands out the next instruction and advances past it. Nothing
    /// comes once the environment has reported a failure or the stream
    /// is exhausted.
    pub fn next_op(&mut self) -> (r: Option<RenderOp>)
        ensures
            r == old(self).spec_next_op(),
            final(self).failed == old(self).failed,
            r is Some ==> final(self).ops@ == old(self).ops@.remove(0),
            r is None ==> final(self).ops@ == old(self).ops@,
    {
        if self.failed || self.ops.len() == 0 {
            None
        } else {
            Some(self.ops.remove(0))
        }
    }

    /// Records that the instruction last handed out failed in the
    /// environment: the pass aborts, and the failure is what the whole
    /// render reports.
    pub fn report_failure(&mut self)
        ensures
            final(self).failed,
            final(self).ops@ == old(self).ops@,
            final(self).spec_next_op() is None,
    {
        self.failed = true;
    }

    /// Whether the pass ran to completion with no failure reported.
    pub fn succeeded(&self) -> (r: bool)
        ensures
            r == (!self.failed && self.ops@.len() == 0),
    {
        !self.failed && self.ops.len() == 0
    }
}

/// Once a failure is reported, a session hands out no further
/// instruction and no longer counts as succeeded: after a failed element
/// creation the instructions that would have appended children are
/// withheld, whatever still stood in the stream.
pub proof fn lemma_failure_stops_render(s: RenderSession)
    requires
        s.failed,
    ensures
        s.spec_next_op() is None,
        !(!s.failed && s.ops@.len() == 0),
{
}

/// The instructions of the first `i` rows are a prefix of those of the
/// first `n` rows, for `i <= n`.
proof fn lemma_rows_ops_prefix(rows: Seq<RowV>, i: int, n: int)
    requires
        0 <= i <= n,
    ensures
        spec_rows_ops(rows, i).len() <= spec_rows_ops(rows, n).len(),
        spec_rows_ops(rows, n).subrange(0, spec_rows_ops(rows, i).len() as int) == spec_rows_ops(
            rows,
            i,
        ),
    decreases n - i,
{
    if n > i {
        lemma_rows_ops_prefix(rows, i, n - 1);
        assert(spec_rows_ops(rows, n).subrange(0, spec_rows_ops(rows, i).len() as int)
            =~= spec_rows_ops(rows, n - 1).subrange(0, spec_rows_ops(rows, i).len() as int));
    } else {
        assert(spec_rows_ops(rows, n).subrange(0, spec_rows_ops(rows, i).len() as int)
            =~= spec_rows_ops(rows, i));
    }
}

/// Where the i-th row's instructions begin within its column's stream.
pub open spec fn spec_row_block_start(c: ColumnV, i: int) -> int {
    spec_column_header_ops(c).len() + spec_rows_ops(c.rows, i).len() as int
}

/// Rows render in the order they were added: within a column's
/// instruction stream the i-th row's instructions stand as one contiguous
/// block, and the blocks of successive rows follow one another
/// immediately, in insertion order, before the final append of the
/// column itself.
pub proof fn lemma_rows_render_in_insertion_order(c: ColumnV, i: int)
    requires
        0 <= i < c.rows.len(),
    ensures
        spec_row_block_start(c, i + 1) == spec_row_block_start(c, i) + spec_row_ops(
            c.rows[i],
        ).len(),
        spec_column_header_ops(c).len() <= spec_row_block_start(c, i),
        spec_row_block_start(c, i + 1) < spec_column_ops(c).len(),
        spec_column_ops(c).subrange(
            spec_row_block_start(c, i),
            spec_row_block_start(c, i) + spec_row_ops(c.rows[i]).len() as int,
        ) == spec_row_ops(c.rows[i]),
{
    let rows = c.rows;
    let n = rows.len() as int;
    let all = spec_rows_ops(rows, n);
    let lo = spec_rows_ops(rows, i).len() as int;
    let hi = spec_rows_ops(rows, i + 1).len() as int;
    lemma_rows_ops_prefix(rows, i + 1, n);
    assert(all.subrange(0, hi) == spec_rows_ops(rows, i + 1));
    assert(spec_rows_ops(rows, i + 1) == spec_rows_ops(rows, i) + spec_row_ops(rows[i]));
    assert forall|k: int| 0 <= k < hi implies all[k] == spec_rows_ops(rows, i + 1)[k] by {
        assert(all.subrange(0, hi)[k] == all[k]);
    }
    assert(all.subrange(lo, hi) =~= spec_row_ops(rows[i]));
    assert(spec_column_ops(c).subrange(
        spec_row_block_start(c, i),
        spec_row_block_start(c, i) + spec_row_ops(rows[i]).len() as int,
    ) =~= spec_row_ops(rows[i]));
}

} // verus!
