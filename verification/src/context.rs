use vstd::prelude::*;
use crate::data::{Column, Row, Table, Value};
use crate::errors::FilterError;

verus! {

/// The mathematical content of one scope frame: the values a frame
/// contributes to column resolution and to the outer scope handed to a
/// nested SELECT.
pub struct ScopeFrame {
    pub table: Table,
    pub columns: Vec<Column>,
    pub row: Row,
}

/// A backward-linked chain of scope frames, innermost first, used to resolve
/// a column reference to a value.  Frames are read-only: a chain is built
/// anew for every evaluated row and never mutated.
pub struct FilterContext<'a> {
    pub table: &'a Table,
    pub columns: &'a Vec<Column>,
    pub row: &'a Row,
    pub next: Option<&'a FilterContext<'a>>,
}

/// A chain of frames representing one row assembled from several joined
/// tables; `next` leads to the next joined table's frame.
pub struct BlendContext<'a> {
    pub table: &'a Table,
    pub columns: &'a Vec<Column>,
    pub row: &'a Row,
    pub next: Option<&'a BlendContext<'a>>,
}

/// Every frame of a scope chain aligns its column list with its row.
pub open spec fn frames_wf(frames: Seq<ScopeFrame>) -> bool {
    forall|i: int|
        0 <= i < frames.len() ==> (#[trigger] frames[i]).columns@.len() == frames[i].row.values@.len()
}

/// First index at or after `i` whose column name is `name`, paired with that
/// column's value, scanning one frame's column list left to right.
pub open spec fn spec_lookup_from(columns: Seq<Column>, row: Seq<Value>, name: Seq<char>, i: int) -> Option<Value>
    decreases columns.len() - i,
{
    if i < 0 || i >= columns.len() {
        Option::None
    } else if columns[i].name@ == name {
        Option::Some(row[i])
    } else {
        spec_lookup_from(columns, row, name, i + 1)
    }
}

/// Resolution of a column name against a scope chain, innermost frame first:
/// scan the first frame, and on a miss delegate to the enclosing frames.
/// `None` means no frame of the chain holds the name.
pub open spec fn spec_resolve(frames: Seq<ScopeFrame>, name: Seq<char>) -> Option<Value>
    decreases frames.len(),
{
    if frames.len() == 0 {
        Option::None
    } else {
        match spec_lookup_from(frames[0].columns@, frames[0].row.values@, name, 0) {
            Option::Some(v) => Option::Some(v),
            Option::None => spec_resolve(frames.skip(1), name),
        }
    }
}

/// The scope frames an optional parent contributes, innermost first.
pub open spec fn opt_frames<'a>(ctx: Option<&'a FilterContext<'a>>) -> Seq<ScopeFrame> {
    match ctx {
        Option::Some(c) => c.frames(),
        Option::None => Seq::empty(),
    }
}

impl<'a> FilterContext<'a> {
    /// The chain seen as a sequence of frames, innermost first.
    pub open spec fn frames(&self) -> Seq<ScopeFrame>
        decreases *self,
    {
        seq![ScopeFrame { table: *self.table, columns: *self.columns, row: *self.row }]
            + match self.next {
            Option::Some(parent) => parent.frames(),
            Option::None => Seq::empty(),
        }
    }

    pub fn new(
        table: &'a Table,
        columns: &'a Vec<Column>,
        row: &'a Row,
        next: Option<&'a FilterContext<'a>>,
    ) -> (r: FilterContext<'a>)
        ensures
            r == (FilterContext { table, columns, row, next }),
    {
        FilterContext { table, columns, row, next }
    }

    /// Resolve a column name to a value: scan this frame's columns for a name
    /// match, and on a miss delegate to the parent frame.  Fails with
    /// `FieldNotFound` exactly when no frame of the chain holds the name.
    pub fn get_value(&self, name: &String) -> (r: Result<&'a Value, FilterError>)
        requires
            frames_wf(self.frames()),
        ensures
            match r {
                Result::Ok(v) => spec_resolve(self.frames(), name@) == Option::Some(*v),
                Result::Err(e) => e == FilterError::FieldNotFound && spec_resolve(
                    self.frames(),
                    name@,
                ) is None,
            },
        decreases *self,
    {
        let ghost frames = self.frames();
        let ghost frame0 = ScopeFrame { table: *self.table, columns: *self.columns, row: *self.row };
        proof {
            assert(frames[0] == frame0);
            assert(frame0.columns@.len() == frame0.row.values@.len());
        }
        let n = self.columns.len();
        let mut i: usize = 0;
        while i < n
            invariant
                n == self.columns@.len(),
                self.columns@.len() == self.row.values@.len(),
                i <= n,
                frames == self.frames(),
                frames[0] == frame0,
                spec_lookup_from(self.columns@, self.row.values@, name@, 0) == spec_lookup_from(
                    self.columns@,
                    self.row.values@,
                    name@,
                    i as int,
                ),
            decreases n - i,
        {
            if self.columns[i].name == *name {
                proof {
                    assert(spec_lookup_from(self.columns@, self.row.values@, name@, i as int)
                        == Option::Some(self.row.values@[i as int]));
                }
                return Result::Ok(&self.row.values[i]);
            }
            i += 1;
        }
        proof {
            assert(spec_lookup_from(self.columns@, self.row.values@, name@, n as int) is None);
        }
        match self.next {
            Option::Some(parent) => {
                proof {
                    assert(frames.skip(1) =~= parent.frames());
                    assert(frames_wf(parent.frames())) by {
                        assert forall|j: int| 0 <= j < parent.frames().len() implies (
                        #[trigger] parent.frames()[j]).columns@.len()
                            == parent.frames()[j].row.values@.len() by {
                            assert(parent.frames()[j] == frames[j + 1]);
                        }
                    }
                }
                parent.get_value(name)
            },
            Option::None => {
                proof {
                    assert(frames.skip(1) =~= Seq::<ScopeFrame>::empty());
                    assert(spec_resolve(frames.skip(1), name@) is None);
                }
                Result::Err(FilterError::FieldNotFound)
            },
        }
    }
}

impl<'a> BlendContext<'a> {
    pub fn new(
        table: &'a Table,
        columns: &'a Vec<Column>,
        row: &'a Row,
        next: Option<&'a BlendContext<'a>>,
    ) -> (r: BlendContext<'a>)
        ensures
            r == (BlendContext { table, columns, row, next }),
    {
        BlendContext { table, columns, row, next }
    }

    /// Every frame of the join chain aligns its column list with its row.
    pub open spec fn wf(&self) -> bool
        decreases *self,
    {
        self.columns@.len() == self.row.values@.len() && match self.next {
            Option::Some(b) => b.wf(),
            Option::None => true,
        }
    }
}

/// Pushing an aligned frame onto a well-formed chain keeps it well-formed.
pub proof fn lemma_frames_wf_push(frame: ScopeFrame, rest: Seq<ScopeFrame>)
    requires
        frame.columns@.len() == frame.row.values@.len(),
        frames_wf(rest),
    ensures
        frames_wf(seq![frame] + rest),
{
    assert forall|i: int| 0 <= i < (seq![frame] + rest).len() implies (#[trigger] (seq![frame]
        + rest)[i]).columns@.len() == (seq![frame] + rest)[i].row.values@.len() by {
        if i == 0 {
            assert((seq![frame] + rest)[0] == frame);
        } else {
            assert((seq![frame] + rest)[i] == rest[i - 1]);
        }
    }
}

} // verus!
