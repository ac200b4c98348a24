//! Merging several template modules into the text of one file.
//!
//! The import lines of all modules are lifted out and gathered at the top;
//! those that cannot work in the merged file are dropped.

use vstd::prelude::*;
use crate::models::Runtime;
use crate::text::{
    append_chars, begins_with, chars_of, contains, contains_text, copy_chars, join_lines, joined,
    lines_of, slices, split_lines, starts_with, string_of, strings, texts, trim, trimmed,
};

verus! {

/// Whether `line` is an import: its first word, white space aside, begins
/// with `import`.
pub open spec fn is_import_line(line: Seq<char>) -> bool {
    starts_with(trim(line), "import"@)
}

/// The test for import lines.
pub open spec fn importing() -> spec_fn(Seq<char>) -> bool {
    |line: Seq<char>| is_import_line(line)
}

/// The test for lines that are no imports.
pub open spec fn not_importing() -> spec_fn(Seq<char>) -> bool {
    |line: Seq<char>| !is_import_line(line)
}

/// The test for lines in which `exclude` does not occur.
pub open spec fn lacking(exclude: Seq<char>) -> spec_fn(Seq<char>) -> bool {
    |line: Seq<char>| !contains_text(line, exclude)
}

/// The lines in which `exclude` does not occur, in their order.
pub open spec fn without(lines: Seq<Seq<char>>, exclude: Seq<char>) -> Seq<Seq<char>> {
    lines.filter(lacking(exclude))
}

/// The import lines of one module, in their order.
pub open spec fn imports_of(file: Seq<char>) -> Seq<Seq<char>> {
    split_lines(file).filter(importing())
}

/// One module without its import lines.
pub open spec fn body_of(file: Seq<char>) -> Seq<char> {
    join_lines(split_lines(file).filter(not_importing()))
}

/// The import lines of all modules, in the modules' order.
pub open spec fn imports(files: Seq<Seq<char>>) -> Seq<Seq<char>>
    decreases files.len(),
{
    if files.len() == 0 {
        Seq::<Seq<char>>::empty()
    } else {
        imports(files.drop_last()) + imports_of(files.last())
    }
}

/// The modules without their import lines, one directly after the other.
pub open spec fn bodies(files: Seq<Seq<char>>) -> Seq<char>
    decreases files.len(),
{
    if files.len() == 0 {
        Seq::<char>::empty()
    } else {
        bodies(files.drop_last()) + body_of(files.last())
    }
}

/// The import lines that stay in a merged file: none that names a sibling
/// module by `"./`, and outside Deno none that mentions `http`.
pub open spec fn kept_imports(runtime: Runtime, lines: Seq<Seq<char>>) -> Seq<Seq<char>> {
    if runtime != Runtime::Deno {
        without(without(lines, "http"@), "\"./"@)
    } else {
        without(lines, "\"./"@)
    }
}

/// The head of a merged file: the import lines and a blank line, or nothing
/// where the lines hold white space only.
pub open spec fn import_block(lines: Seq<Seq<char>>) -> Seq<char> {
    if trim(join_lines(lines)).len() == 0 {
        Seq::<char>::empty()
    } else {
        join_lines(lines) + "\n\n"@
    }
}

/// The text of the file into which the modules `files` merge.
pub open spec fn merged(runtime: Runtime, files: Seq<Seq<char>>) -> Seq<char> {
    import_block(kept_imports(runtime, imports(files))) + trim(bodies(files))
}

/// No import line that stays in a merged file names a sibling module by
/// `"./`, and outside Deno none mentions `http`.
pub proof fn lemma_kept_imports_are_clean(runtime: Runtime, lines: Seq<Seq<char>>, i: int)
    requires
        0 <= i < kept_imports(runtime, lines).len(),
    ensures
        !contains_text(kept_imports(runtime, lines)[i], "\"./"@),
        runtime != Runtime::Deno ==> !contains_text(kept_imports(runtime, lines)[i], "http"@),
{
    let kept = kept_imports(runtime, lines);
    if runtime != Runtime::Deno {
        let first = without(lines, "http"@);
        first.lemma_filter_pred(lacking("\"./"@), i);
        assert(kept.contains(kept[i]));
        first.lemma_filter_contains_rev(lacking("\"./"@), kept[i]);
        let j = choose|j: int| 0 <= j < first.len() && first[j] == kept[i];
        lines.lemma_filter_pred(lacking("http"@), j);
    } else {
        lines.lemma_filter_pred(lacking("\"./"@), i);
    }
}

/// The lines in which `exclude` does not occur, in their order.
pub fn filter_out(lines: Vec<String>, exclude: &str) -> (kept: Vec<String>)
    ensures
        strings(kept@) == without(strings(lines@), exclude@),
{
    let needle = chars_of(exclude);
    let mut kept: Vec<String> = Vec::new();
    let mut i: usize = 0;
    assert(strings(lines@).take(0).filter(lacking(exclude@)) =~= Seq::<Seq<char>>::empty()) by {
        reveal(Seq::filter);
    }
    while i < lines.len()
        invariant
            i <= lines.len(),
            needle@ == exclude@,
            strings(kept@) == strings(lines@).take(i as int).filter(lacking(exclude@)),
        decreases lines.len() - i,
    {
        let line = lines[i].clone();
        proof {
            assert(strings(lines@).take(i + 1) =~= strings(lines@).take(i as int).push(line@));
            strings(lines@).take(i as int).lemma_filter_push(line@, lacking(exclude@));
        }
        if !contains(&chars_of(line.as_str()), &needle) {
            assert(strings(kept@.push(line)) =~= strings(kept@).push(line@));
            kept.push(line);
        }
        i += 1;
    }
    assert(strings(lines@).take(lines.len() as int) =~= strings(lines@));
    kept
}

/// Splits one module into its import lines, which are added to
/// `import_lines`, and the rest, which is added to `body`.
fn take_apart(file: &str, import_lines: &mut Vec<String>, body: &mut Vec<char>)
    ensures
        strings(final(import_lines)@) == strings(old(import_lines)@) + imports_of(file@),
        final(body)@ == old(body)@ + body_of(file@),
{
    let keyword = chars_of("import");
    let lines = lines_of(&chars_of(file));
    let mut rest: Vec<Vec<char>> = Vec::new();
    let mut i: usize = 0;
    proof {
        reveal(Seq::filter);
        assert(texts(lines@).take(0).filter(importing()) =~= Seq::<Seq<char>>::empty());
        assert(texts(lines@).take(0).filter(not_importing()) =~= Seq::<Seq<char>>::empty());
        assert(strings(import_lines@) + Seq::<Seq<char>>::empty() =~= strings(import_lines@));
    }
    while i < lines.len()
        invariant
            i <= lines.len(),
            keyword@ == "import"@,
            strings(import_lines@) == strings(old(import_lines)@) + texts(lines@).take(
                i as int,
            ).filter(importing()),
            texts(rest@) == texts(lines@).take(i as int).filter(not_importing()),
        decreases lines.len() - i,
    {
        let line = &lines[i];
        proof {
            assert(texts(lines@).take(i + 1) =~= texts(lines@).take(i as int).push(line@));
            texts(lines@).take(i as int).lemma_filter_push(line@, importing());
            texts(lines@).take(i as int).lemma_filter_push(line@, not_importing());
        }
        if begins_with(&trimmed(line), &keyword) {
            let text = string_of(line);
            assert(strings(import_lines@.push(text)) =~= strings(import_lines@).push(text@));
            import_lines.push(text);
        } else {
            let copy = copy_chars(line);
            assert(texts(rest@.push(copy)) =~= texts(rest@).push(copy@));
            rest.push(copy);
        }
        i += 1;
    }
    assert(texts(lines@).take(lines.len() as int) =~= texts(lines@));
    append_chars(body, &joined(&rest));
}

/// The character sequences of `lines`, each as a list of characters.
fn chars_of_all(lines: &Vec<String>) -> (all: Vec<Vec<char>>)
    ensures
        texts(all@) == strings(lines@),
{
    let mut all: Vec<Vec<char>> = Vec::new();
    let mut i: usize = 0;
    while i < lines.len()
        invariant
            i <= lines.len(),
            texts(all@) == strings(lines@).take(i as int),
        decreases lines.len() - i,
    {
        let line = chars_of(lines[i].as_str());
        assert(texts(all@.push(line)) =~= texts(all@).push(line@));
        assert(strings(lines@).take(i + 1) =~= strings(lines@).take(i as int).push(line@));
        all.push(line);
        i += 1;
    }
    assert(strings(lines@).take(lines.len() as int) =~= strings(lines@));
    all
}

/// The text of the file into which the modules `files` merge.
pub fn merge_files(runtime: Runtime, files: &Vec<&str>) -> (text: String)
    ensures
        text@ == merged(runtime, slices(files@)),
{
    let mut import_lines: Vec<String> = Vec::new();
    let mut body: Vec<char> = Vec::new();
    let mut i: usize = 0;
    while i < files.len()
        invariant
            i <= files.len(),
            strings(import_lines@) == imports(slices(files@).take(i as int)),
            body@ == bodies(slices(files@).take(i as int)),
        decreases files.len() - i,
    {
        proof {
            let upto = slices(files@).take(i + 1);
            assert(upto.drop_last() =~= slices(files@).take(i as int));
            assert(upto.last() == files@[i as int]@);
        }
        take_apart(files[i], &mut import_lines, &mut body);
        i += 1;
    }
    assert(slices(files@).take(files.len() as int) =~= slices(files@));
    if runtime != Runtime::Deno {
        import_lines = filter_out(import_lines, "http");
    }
    let import_lines = filter_out(import_lines, "\"./");
    let head = joined(&chars_of_all(&import_lines));
    let mut out: Vec<char> = Vec::new();
    if trimmed(&head).len() != 0 {
        append_chars(&mut out, &head);
        append_chars(&mut out, &chars_of("\n\n"));
    }
    append_chars(&mut out, &trimmed(&body));
    string_of(&out)
}

} // verus!
