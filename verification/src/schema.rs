//! The fixed schema of the store.

use vstd::prelude::*;

verus! {

/// The text of the schema: one guarded table-creation statement for the
/// single table `log`, whose five text columns mirror a log entry; the row
/// identity is the engine's implicit one.
pub open spec fn spec_schema() -> Seq<char> {
    "CREATE TABLE IF NOT EXISTS log (date TEXT, emitter TEXT, source TEXT, component TEXT, entry TEXT);"@
}

/// Returns the DDL text applied when a store is initialized.
pub fn get_schema() -> (schema: &'static str)
    ensures
        schema@ == spec_schema(),
{
    "CREATE TABLE IF NOT EXISTS log (date TEXT, emitter TEXT, source TEXT, component TEXT, entry TEXT);"
}

/// The schema is safe to re-apply: its single statement is a table creation
/// (`CREATE TABLE` stands at its head) in the guarded form (`IF NOT EXISTS`
/// follows immediately), so applying it to an already-initialized store
/// neither errs nor duplicates the table.
pub proof fn lemma_schema_reapplicable()
    ensures
        spec_schema().subrange(0, 12) == "CREATE TABLE"@,
        spec_schema().subrange(13, 26) == "IF NOT EXISTS"@,
{
    reveal_strlit("CREATE TABLE IF NOT EXISTS log (date TEXT, emitter TEXT, source TEXT, component TEXT, entry TEXT);");
    reveal_strlit("CREATE TABLE");
    reveal_strlit("IF NOT EXISTS");
    assert(spec_schema().subrange(0, 12) =~= "CREATE TABLE"@);
    assert(spec_schema().subrange(13, 26) =~= "IF NOT EXISTS"@);
}

} // verus!
