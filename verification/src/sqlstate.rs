//! The SQLSTATE class table.
//!
//! A PostgreSQL server labels every structured error report with a
//! five-character alphanumeric status code.  The first two characters name
//! the code's class; the published code space assigns each class a
//! human-readable category.  The table here is advisory: it serves display
//! and logging, and never changes control flow.  Every code receives a
//! category; a well-formed but unrecognized code falls into the
//! "unknown error class" bucket rather than failing.

use vstd::prelude::*;

verus! {

/// Holds exactly for the characters that may appear in a SQLSTATE code:
/// the digits and the upper-case ASCII letters.
pub open spec fn is_sqlstate_char(c: char) -> bool {
    ('0' as int <= c as int && c as int <= '9' as int) || ('A' as int <= c as int
        && c as int <= 'Z' as int)
}

/// Holds exactly for well-formed SQLSTATE codes: five characters, each a
/// digit or an upper-case ASCII letter.
pub open spec fn valid_sqlstate(code: Seq<char>) -> bool {
    code.len() == 5 && forall|i: int| 0 <= i < 5 ==> is_sqlstate_char(#[trigger] code[i])
}

/// Decides whether `code` is a well-formed SQLSTATE code.
pub fn is_valid_sqlstate_code(code: &str) -> (b: bool)
    ensures
        b == valid_sqlstate(code@),
{
    let n: usize = code.unicode_len();
    if n != 5 {
        return false;
    }
    let mut i: usize = 0;
    while i < 5
        invariant
            0 <= i <= 5,
            code@.len() == 5,
            forall|j: int| 0 <= j < i ==> is_sqlstate_char(#[trigger] code@[j]),
        decreases 5 - i,
    {
        let c = code.get_char(i);
        let v: u32 = c as u32;
        if !((48 <= v && v <= 57) || (65 <= v && v <= 90)) {
            return false;
        }
        i = i + 1;
    }
    true
}

/// The category of the class named by the first two characters of a
/// SQLSTATE code, as the published code space assigns it; any pair outside
/// the published classes falls into the "unknown error class" bucket.
pub open spec fn class_category(c0: char, c1: char) -> Seq<char> {
    if c0 == '0' && c1 == '0' {
        "successful completion"@
    } else if c0 == '0' && c1 == '1' {
        "warning"@
    } else if c0 == '0' && c1 == '2' {
        "no data"@
    } else if c0 == '0' && c1 == '3' {
        "SQL statement not yet complete"@
    } else if c0 == '0' && c1 == '8' {
        "connection exception"@
    } else if c0 == '0' && c1 == '9' {
        "triggered action exception"@
    } else if c0 == '0' && c1 == 'A' {
        "feature not supported"@
    } else if c0 == '0' && c1 == 'B' {
        "invalid transaction initiation"@
    } else if c0 == '0' && c1 == 'F' {
        "locator exception"@
    } else if c0 == '0' && c1 == 'L' {
        "invalid grantor"@
    } else if c0 == '0' && c1 == 'P' {
        "invalid role specification"@
    } else if c0 == '0' && c1 == 'Z' {
        "diagnostics exception"@
    } else if c0 == '2' && c1 == '0' {
        "case not found"@
    } else if c0 == '2' && c1 == '1' {
        "cardinality violation"@
    } else if c0 == '2' && c1 == '2' {
        "data exception"@
    } else if c0 == '2' && c1 == '3' {
        "integrity constraint violation"@
    } else if c0 == '2' && c1 == '4' {
        "invalid cursor state"@
    } else if c0 == '2' && c1 == '5' {
        "invalid transaction state"@
    } else if c0 == '2' && c1 == '6' {
        "invalid SQL statement name"@
    } else if c0 == '2' && c1 == '7' {
        "triggered data change violation"@
    } else if c0 == '2' && c1 == '8' {
        "invalid authorization specification"@
    } else if c0 == '2' && c1 == 'B' {
        "dependent privilege descriptors still exist"@
    } else if c0 == '2' && c1 == 'D' {
        "invalid transaction termination"@
    } else if c0 == '2' && c1 == 'F' {
        "SQL routine exception"@
    } else if c0 == '3' && c1 == '4' {
        "invalid cursor name"@
    } else if c0 == '3' && c1 == '8' {
        "external routine exception"@
    } else if c0 == '3' && c1 == '9' {
        "external routine invocation exception"@
    } else if c0 == '3' && c1 == 'B' {
        "savepoint exception"@
    } else if c0 == '3' && c1 == 'D' {
        "invalid catalog name"@
    } else if c0 == '3' && c1 == 'F' {
        "invalid schema name"@
    } else if c0 == '4' && c1 == '0' {
        "transaction rollback"@
    } else if c0 == '4' && c1 == '2' {
        "syntax error or access rule violation"@
    } else if c0 == '4' && c1 == '4' {
        "WITH CHECK OPTION violation"@
    } else if c0 == '5' && c1 == '3' {
        "insufficient resources"@
    } else if c0 == '5' && c1 == '4' {
        "program limit exceeded"@
    } else if c0 == '5' && c1 == '5' {
        "object not in prerequisite state"@
    } else if c0 == '5' && c1 == '7' {
        "operator intervention"@
    } else if c0 == '5' && c1 == '8' {
        "system error"@
    } else if c0 == '7' && c1 == '2' {
        "snapshot failure"@
    } else if c0 == 'F' && c1 == '0' {
        "configuration file error"@
    } else if c0 == 'H' && c1 == 'V' {
        "foreign data wrapper error"@
    } else if c0 == 'P' && c1 == '0' {
        "PL/pgSQL error"@
    } else if c0 == 'X' && c1 == 'X' {
        "internal error"@
    } else {
        "unknown error class"@
    }
}

/// The category of a whole status code: the category of its class, read
/// from the first two characters.  A code too short to name a class falls
/// into the "unknown error class" bucket, so the mapping is total.
pub open spec fn code_category(code: Seq<char>) -> Seq<char> {
    if code.len() < 2 {
        "unknown error class"@
    } else {
        class_category(code[0], code[1])
    }
}

/// Looks up the category of the class named by a pair of characters.
pub fn class_category_lookup(c0: char, c1: char) -> (r: &'static str)
    ensures
        r@ == class_category(c0, c1),
{
    if c0 == '0' && c1 == '0' {
        "successful completion"
    } else if c0 == '0' && c1 == '1' {
        "warning"
    } else if c0 == '0' && c1 == '2' {
        "no data"
    } else if c0 == '0' && c1 == '3' {
        "SQL statement not yet complete"
    } else if c0 == '0' && c1 == '8' {
        "connection exception"
    } else if c0 == '0' && c1 == '9' {
        "triggered action exception"
    } else if c0 == '0' && c1 == 'A' {
        "feature not supported"
    } else if c0 == '0' && c1 == 'B' {
        "invalid transaction initiation"
    } else if c0 == '0' && c1 == 'F' {
        "locator exception"
    } else if c0 == '0' && c1 == 'L' {
        "invalid grantor"
    } else if c0 == '0' && c1 == 'P' {
        "invalid role specification"
    } else if c0 == '0' && c1 == 'Z' {
        "diagnostics exception"
    } else if c0 == '2' && c1 == '0' {
        "case not found"
    } else if c0 == '2' && c1 == '1' {
        "cardinality violation"
    } else if c0 == '2' && c1 == '2' {
        "data exception"
    } else if c0 == '2' && c1 == '3' {
        "integrity constraint violation"
    } else if c0 == '2' && c1 == '4' {
        "invalid cursor state"
    } else if c0 == '2' && c1 == '5' {
        "invalid transaction state"
    } else if c0 == '2' && c1 == '6' {
        "invalid SQL statement name"
    } else if c0 == '2' && c1 == '7' {
        "triggered data change violation"
    } else if c0 == '2' && c1 == '8' {
        "invalid authorization specification"
    } else if c0 == '2' && c1 == 'B' {
        "dependent privilege descriptors still exist"
    } else if c0 == '2' && c1 == 'D' {
        "invalid transaction termination"
    } else if c0 == '2' && c1 == 'F' {
        "SQL routine exception"
    } else if c0 == '3' && c1 == '4' {
        "invalid cursor name"
    } else if c0 == '3' && c1 == '8' {
        "external routine exception"
    } else if c0 == '3' && c1 == '9' {
        "external routine invocation exception"
    } else if c0 == '3' && c1 == 'B' {
        "savepoint exception"
    } else if c0 == '3' && c1 == 'D' {
        "invalid catalog name"
    } else if c0 == '3' && c1 == 'F' {
        "invalid schema name"
    } else if c0 == '4' && c1 == '0' {
        "transaction rollback"
    } else if c0 == '4' && c1 == '2' {
        "syntax error or access rule violation"
    } else if c0 == '4' && c1 == '4' {
        "WITH CHECK OPTION violation"
    } else if c0 == '5' && c1 == '3' {
        "insufficient resources"
    } else if c0 == '5' && c1 == '4' {
        "program limit exceeded"
    } else if c0 == '5' && c1 == '5' {
        "object not in prerequisite state"
    } else if c0 == '5' && c1 == '7' {
        "operator intervention"
    } else if c0 == '5' && c1 == '8' {
        "system error"
    } else if c0 == '7' && c1 == '2' {
        "snapshot failure"
    } else if c0 == 'F' && c1 == '0' {
        "configuration file error"
    } else if c0 == 'H' && c1 == 'V' {
        "foreign data wrapper error"
    } else if c0 == 'P' && c1 == '0' {
        "PL/pgSQL error"
    } else if c0 == 'X' && c1 == 'X' {
        "internal error"
    } else {
        "unknown error class"
    }
}

/// Looks up the category of a whole status code.  Total: every code, even
/// an ill-formed one, receives a category.
pub fn sqlstate_category(code: &str) -> (r: &'static str)
    ensures
        r@ == code_category(code@),
{
    let n: usize = code.unicode_len();
    if n < 2 {
        return "unknown error class";
    }
    let c0 = code.get_char(0);
    let c1 = code.get_char(1);
    class_category_lookup(c0, c1)
}

/// The category of every status code is a non-empty string: the table
/// covers the full published code space, and everything outside it falls
/// into the non-empty "unknown error class" bucket.
pub proof fn lemma_code_category_nonempty(code: Seq<char>)
    ensures
        code_category(code).len() > 0,
{
    reveal_strlit("successful completion");
    reveal_strlit("warning");
    reveal_strlit("no data");
    reveal_strlit("SQL statement not yet complete");
    reveal_strlit("connection exception");
    reveal_strlit("triggered action exception");
    reveal_strlit("feature not supported");
    reveal_strlit("invalid transaction initiation");
    reveal_strlit("locator exception");
    reveal_strlit("invalid grantor");
    reveal_strlit("invalid role specification");
    reveal_strlit("diagnostics exception");
    reveal_strlit("case not found");
    reveal_strlit("cardinality violation");
    reveal_strlit("data exception");
    reveal_strlit("integrity constraint violation");
    reveal_strlit("invalid cursor state");
    reveal_strlit("invalid transaction state");
    reveal_strlit("invalid SQL statement name");
    reveal_strlit("triggered data change violation");
    reveal_strlit("invalid authorization specification");
    reveal_strlit("dependent privilege descriptors still exist");
    reveal_strlit("invalid transaction termination");
    reveal_strlit("SQL routine exception");
    reveal_strlit("invalid cursor name");
    reveal_strlit("external routine exception");
    reveal_strlit("external routine invocation exception");
    reveal_strlit("savepoint exception");
    reveal_strlit("invalid catalog name");
    reveal_strlit("invalid schema name");
    reveal_strlit("transaction rollback");
    reveal_strlit("syntax error or access rule violation");
    reveal_strlit("WITH CHECK OPTION violation");
    reveal_strlit("insufficient resources");
    reveal_strlit("program limit exceeded");
    reveal_strlit("object not in prerequisite state");
    reveal_strlit("operator intervention");
    reveal_strlit("system error");
    reveal_strlit("snapshot failure");
    reveal_strlit("configuration file error");
    reveal_strlit("foreign data wrapper error");
    reveal_strlit("PL/pgSQL error");
    reveal_strlit("internal error");
    reveal_strlit("unknown error class");
}

/// Classification is advisory and reads only the class: two codes whose
/// first two characters agree receive the same category, whatever their
/// remaining characters say.
pub proof fn lemma_category_reads_class_only(a: Seq<char>, b: Seq<char>)
    requires
        a.len() >= 2,
        b.len() >= 2,
        a[0] == b[0],
        a[1] == b[1],
    ensures
        code_category(a) == code_category(b),
{
}

} // verus!
