use vstd::prelude::*;

verus! {

/// The type that a column declares for its values.
#[derive(Clone, Copy, Debug, PartialEq, Eq, Structural)]
pub enum DataType {
    Str,
    Other,
}

/// One value of a data frame column, as far as the Bacalhau section reads it:
/// a string, or a value of any other type.
#[derive(Clone, Debug)]
pub enum CellValue {
    Str(String),
    Other,
}

/// The mathematical value of a [`CellValue`].
pub enum CellView {
    Str(Seq<char>),
    Other,
}

impl View for CellValue {
    type V = CellView;

    open spec fn view(&self) -> CellView {
        match self {
            CellValue::Str(s) => CellView::Str(s@),
            CellValue::Other => CellView::Other,
        }
    }
}

/// A named column of a data frame.
#[derive(Clone, Debug)]
pub struct Column {
    pub name: String,
    pub data_type: DataType,
    pub values: Vec<CellValue>,
}

/// The mathematical value of a [`Column`].
pub struct ColumnView {
    pub name: Seq<char>,
    pub data_type: DataType,
    pub values: Seq<CellView>,
}

impl View for Column {
    type V = ColumnView;

    open spec fn view(&self) -> ColumnView {
        ColumnView {
            name: self.name@,
            data_type: self.data_type,
            values: self.values@.map_values(|v: CellValue| v@),
        }
    }
}

/// The views of a sequence of columns.
pub open spec fn columns_view(columns: Seq<Column>) -> Seq<ColumnView> {
    columns.map_values(|c: Column| c@)
}

/// The views of the values of a sequence of columns, column by column.
pub open spec fn cells_view(columns: Seq<Vec<CellValue>>) -> Seq<Seq<CellView>> {
    columns.map_values(|c: Vec<CellValue>| c@.map_values(|v: CellValue| v@))
}

/// The first value of the first column, where there is one.
pub open spec fn first_cell(columns: Seq<Seq<CellView>>) -> Option<CellView> {
    if columns.len() > 0 && columns[0].len() > 0 {
        Some(columns[0][0])
    } else {
        None
    }
}

/// Returns a copy of the first value of the first column, if there is one.
pub(crate) fn first_cell_of(columns: &Vec<Vec<CellValue>>) -> (cell: Option<CellValue>)
    ensures
        match cell {
            Some(c) => {
                &&& columns@.len() > 0
                &&& columns@[0]@.len() > 0
                &&& c@ == columns@[0]@[0]@
                &&& first_cell(cells_view(columns@)) == Some(c@)
            },
            None => {
                &&& columns@.len() == 0 || columns@[0]@.len() == 0
                &&& first_cell(cells_view(columns@)) is None
            },
        },
{
    if columns.len() == 0 {
        return None;
    }
    let first = &columns[0];
    assert(cells_view(columns@)[0] == first@.map_values(|v: CellValue| v@));
    if first.len() == 0 {
        return None;
    }
    match &first[0] {
        CellValue::Str(s) => Some(CellValue::Str(s.clone())),
        CellValue::Other => Some(CellValue::Other),
    }
}

/// The value that decides about a frame is the first value of its first
/// column, whatever the other values and columns hold; a frame with no
/// columns, or an empty first column, has none.
pub proof fn lemma_first_cell_is_first_value(columns: Seq<Seq<CellView>>)
    ensures
        columns.len() > 0 && columns[0].len() > 0 ==> first_cell(columns) == Some(columns[0][0]),
        columns.len() == 0 || columns[0].len() == 0 ==> first_cell(columns) is None,
{
}

} // verus!
