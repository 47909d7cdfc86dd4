//! Assembling labelled DDL sections into one script.
use vstd::prelude::*;

use crate::text::{
    ends_with_char, is_empty_str, join, join_strings, opt_view, owned, push_char, push_str, trim, trim_str,
    views,
};

verus! {

/// A labelled group of DDL statements.
pub struct DdlSection<'a> {
    pub label: &'a str,
    pub statements: Vec<String>,
}

/// A statement trimmed and ended by exactly the `;` it had, or one added.
pub open spec fn normalized_statement(s: Seq<char>) -> Seq<char> {
    let t = trim(s);
    if t.len() > 0 && t.last() == ';' {
        t
    } else {
        t.push(';')
    }
}

/// The non-blank statements of a section, normalized, in order.
pub open spec fn section_statements(stmts: Seq<Seq<char>>) -> Seq<Seq<char>>
    decreases stmts.len(),
{
    if stmts.len() == 0 {
        Seq::empty()
    } else {
        let rest = section_statements(stmts.drop_last());
        if trim(stmts.last()).len() == 0 {
            rest
        } else {
            rest.push(normalized_statement(stmts.last()))
        }
    }
}

pub open spec fn section_text(label: Seq<char>, stmts: Seq<Seq<char>>) -> Seq<char> {
    "-- "@ + label + "\n\n"@ + join(section_statements(stmts), "\n\n"@)
}

/// A section by value: its label and its statements.
pub open spec fn section_view(section: DdlSection) -> (Seq<char>, Seq<Seq<char>>) {
    (section.label@, views(section.statements@))
}

pub open spec fn sections_view(sections: Seq<DdlSection>) -> Seq<(Seq<char>, Seq<Seq<char>>)> {
    sections.map_values(|s: DdlSection| section_view(s))
}

/// The rendered sections that hold a statement, in order.
pub open spec fn ddl_parts(sections: Seq<(Seq<char>, Seq<Seq<char>>)>) -> Seq<Seq<char>>
    decreases sections.len(),
{
    if sections.len() == 0 {
        Seq::empty()
    } else {
        let rest = ddl_parts(sections.drop_last());
        let last = sections.last();
        if section_statements(last.1).len() == 0 {
            rest
        } else {
            rest.push(section_text(last.0, last.1))
        }
    }
}

/// The script: each non-empty section as `-- label`, a blank line and its
/// statements separated by blank lines; sections separated by blank lines.
pub open spec fn ddl_script(sections: Seq<(Seq<char>, Seq<Seq<char>>)>) -> Option<Seq<char>> {
    let parts = ddl_parts(sections);
    if parts.len() == 0 {
        None
    } else {
        Some(join(parts, "\n\n"@))
    }
}

/// Every statement of every section is blank.
pub open spec fn all_blank(sections: Seq<(Seq<char>, Seq<Seq<char>>)>) -> bool {
    forall|i: int, j: int|
        0 <= i < sections.len() && 0 <= j < sections[i].1.len() ==> trim(
            #[trigger] sections[i].1[j],
        ).len() == 0
}

pub proof fn lemma_section_statements_empty(stmts: Seq<Seq<char>>)
    ensures
        section_statements(stmts).len() == 0 <==> forall|j: int|
            0 <= j < stmts.len() ==> trim(#[trigger] stmts[j]).len() == 0,
    decreases stmts.len(),
{
    if stmts.len() > 0 {
        lemma_section_statements_empty(stmts.drop_last());
        assert forall|j: int| 0 <= j < stmts.len() - 1 implies #[trigger] stmts.drop_last()[j]
            == stmts[j] by {}
        if section_statements(stmts).len() == 0 {
            assert forall|j: int| 0 <= j < stmts.len() implies trim(#[trigger] stmts[j]).len()
                == 0 by {
                if j < stmts.len() - 1 {
                    assert(stmts.drop_last()[j] == stmts[j]);
                }
            }
        }
    }
}

/// A script is produced exactly when some statement is not blank.
pub proof fn lemma_ddl_script_none_iff_blank(sections: Seq<(Seq<char>, Seq<Seq<char>>)>)
    ensures
        ddl_script(sections) is None <==> all_blank(sections),
    decreases sections.len(),
{
    if sections.len() > 0 {
        let init = sections.drop_last();
        lemma_ddl_script_none_iff_blank(init);
        let last = sections.last();
        lemma_section_statements_empty(last.1);
        if all_blank(sections) {
            assert forall|i: int, j: int|
                0 <= i < init.len() && 0 <= j < init[i].1.len() implies trim(
                #[trigger] init[i].1[j],
            ).len() == 0 by {
                assert(init[i] == sections[i]);
            }
            assert forall|j: int| 0 <= j < last.1.len() implies trim(#[trigger] last.1[j]).len()
                == 0 by {
                assert(trim(sections[sections.len() - 1].1[j]).len() == 0);
            }
        }
        if ddl_script(sections) is None {
            assert forall|i: int, j: int|
                0 <= i < sections.len() && 0 <= j < sections[i].1.len() implies trim(
                #[trigger] sections[i].1[j],
            ).len() == 0 by {
                if i < sections.len() - 1 {
                    assert(init[i] == sections[i]);
                    assert(trim(init[i].1[j]).len() == 0);
                } else {
                    assert(trim(last.1[j]).len() == 0);
                }
            }
        }
    }
}

fn normalize_statements(statements: &Vec<String>) -> (r: Vec<String>)
    ensures
        views(r@) == section_statements(views(statements@)),
{
    let ghost all = views(statements@);
    let mut out: Vec<String> = Vec::new();
    let mut i: usize = 0;
    while i < statements.len()
        invariant
            all == views(statements@),
            i <= statements@.len(),
            views(out@) == section_statements(all.subrange(0, i as int)),
        decreases statements@.len() - i,
    {
        let ghost before = views(out@);
        assert(all.subrange(0, i + 1).drop_last() =~= all.subrange(0, i as int));
        assert(all.subrange(0, i + 1).last() == statements@[i as int]@);
        let t = trim_str(statements[i].as_str());
        if !is_empty_str(t.as_str()) {
            let mut s = t;
            if !ends_with_char(s.as_str(), ';') {
                push_char(&mut s, ';');
            }
            out.push(s);
            assert(views(out@) =~= before.push(normalized_statement(statements@[i as int]@)));
        }
        i = i + 1;
    }
    assert(all.subrange(0, i as int) =~= all);
    out
}

/// Joins the non-empty sections into one script, or `None` when every
/// statement is blank.
pub fn assemble_ddl(sections: Vec<DdlSection>) -> (r: Option<String>)
    ensures
        opt_view(r) == ddl_script(sections_view(sections@)),
        r is None <==> all_blank(sections_view(sections@)),
{
    let ghost all = sections_view(sections@);
    let mut parts: Vec<String> = Vec::new();
    let mut i: usize = 0;
    while i < sections.len()
        invariant
            all == sections_view(sections@),
            i <= sections@.len(),
            views(parts@) == ddl_parts(all.subrange(0, i as int)),
        decreases sections@.len() - i,
    {
        let ghost before = views(parts@);
        assert(all.subrange(0, i + 1).drop_last() =~= all.subrange(0, i as int));
        let section = &sections[i];
        assert(all.subrange(0, i + 1).last() == section_view(*section));
        let statements = normalize_statements(&section.statements);
        if statements.len() > 0 {
            let mut part = owned("-- ");
            push_str(&mut part, section.label);
            push_str(&mut part, "\n\n");
            let body = join_strings(&statements, "\n\n");
            push_str(&mut part, body.as_str());
            parts.push(part);
            assert(views(parts@) =~= before.push(
                section_text(section.label@, views(section.statements@)),
            ));
        }
        i = i + 1;
    }
    assert(all.subrange(0, i as int) =~= all);
    proof {
        lemma_ddl_script_none_iff_blank(all);
    }
    if parts.len() == 0 {
        None
    } else {
        Some(join_strings(&parts, "\n\n"))
    }
}

} // verus!
