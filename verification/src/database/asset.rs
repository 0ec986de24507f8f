//! Assets as stored in the database.
use vstd::prelude::*;

use crate::collections::StringMap;

verus! {

/// An asset row: its identifier and its code.
#[derive(Debug, Clone, Default)]
pub struct Assets {
    pub id: i32,
    pub code: String,
}

/// The map from asset code to identifier that a list of rows describes;
/// a later row overrides an earlier one with the same code.
pub open spec fn assets_index(rows: Seq<Assets>) -> Map<Seq<char>, i32>
    decreases rows.len(),
{
    if rows.len() == 0 {
        Map::empty()
    } else {
        assets_index(rows.drop_last()).insert(rows.last().code@, rows.last().id)
    }
}

impl Assets {
    /// Indexes the asset rows read from the database by their code.
    pub fn index_by_code(rows: Vec<Assets>) -> (m: StringMap<i32>)
        ensures
            m@ == assets_index(rows@),
    {
        let mut m = StringMap::new();
        let mut i: usize = 0;
        while i < rows.len()
            invariant
                i <= rows@.len(),
                m@ == assets_index(rows@.take(i as int)),
            decreases rows@.len() - i,
        {
            let row = &rows[i];
            m.insert(row.code.clone(), row.id);
            assert(rows@.take(i + 1).drop_last() =~= rows@.take(i as int));
            i = i + 1;
        }
        assert(rows@.take(rows@.len() as int) =~= rows@);
        m
    }
}

} // verus!
