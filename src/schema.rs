use vstd::prelude::*;

verus! {

/// One column of a record table: its name, its storage type as the engine
/// spells it, and whether a secondary index is kept on it.
pub struct Column {
    name: &'static str,
    col_type: &'static str,
    indexed: bool,
}

impl Column {
    pub closed spec fn spec_name(&self) -> Seq<char> {
        self.name@
    }

    pub closed spec fn spec_col_type(&self) -> Seq<char> {
        self.col_type@
    }

    pub closed spec fn spec_indexed(&self) -> bool {
        self.indexed
    }

    /// A column that is not indexed.
    pub fn new(name: &'static str, col_type: &'static str) -> (r: Self)
        ensures
            r.spec_name() == name@,
            r.spec_col_type() == col_type@,
            !r.spec_indexed(),
    {
        Column { name, col_type, indexed: false }
    }

    /// The same column, marked for a secondary index.
    pub fn indexed(self) -> (r: Self)
        ensures
            r.spec_name() == self.spec_name(),
            r.spec_col_type() == self.spec_col_type(),
            r.spec_indexed(),
    {
        let mut c = self;
        c.indexed = true;
        c
    }

    pub fn name(&self) -> (r: &'static str)
        ensures
            r@ == self.spec_name(),
    {
        self.name
    }

    pub fn col_type(&self) -> (r: &'static str)
        ensures
            r@ == self.spec_col_type(),
    {
        self.col_type
    }

    pub fn is_indexed(&self) -> (r: bool)
        ensures
            r == self.spec_indexed(),
    {
        self.indexed
    }
}

} // verus!

verus! {

/// A field value that a record stores in one of its columns.
pub trait ColumnValue: Send + Sync {
    /// The text that the value is bound as.
    spec fn sql_text(&self) -> Seq<char>;

    /// The value as it is bound to a statement parameter.
    fn to_sql_string(&self) -> (r: String)
        ensures
            r@ == self.sql_text();

    /// The storage type of the column that holds it.
    fn column_type(&self) -> &'static str;
}

impl ColumnValue for String {
    open spec fn sql_text(&self) -> Seq<char> {
        self@
    }

    fn to_sql_string(&self) -> (r: String) {
        self.clone()
    }

    fn column_type(&self) -> (r: &'static str)
        ensures
            r@ == "TEXT"@,
    {
        "TEXT"
    }
}

/// A record type that the store keeps: its table, its columns, and for each
/// value its identifier and the value of each of its columns, in order.
pub trait LibsqlVectorStoreTable: Send + Sync + Clone {
    fn name() -> &'static str;

    fn schema() -> Vec<Column>;

    /// The identifier of a value, unique within its table.
    spec fn spec_id(&self) -> Seq<char>;

    /// Each column of a value with the text that it is stored as, in order.
    spec fn spec_columns(&self) -> Seq<(Seq<char>, Seq<char>)>;

    fn id(&self) -> (r: String)
        ensures
            r@ == self.spec_id();

    fn column_values(&self) -> (r: Vec<(&'static str, Box<dyn ColumnValue>)>)
        ensures
            r@.map_values(|p: (&'static str, Box<dyn ColumnValue>)| (p.0@, p.1.sql_text()))
                == self.spec_columns();
}

} // verus!
