//! Path templates: the separators in a template stay separators, while those in the values that
//! are filled in do not become ones.
//!
//! Before a template is compiled, each separator in it is replaced by a marker. What is rendered
//! from it is made fit for a file name, which leaves the marker alone, and then each marker is
//! turned into a separator again.
use vstd::prelude::*;

use crate::text::replace_all;

verus! {

use crate::text::{occurs_at, replaced};

/// The registry of templates, of [`handlebars`].
#[verifier::external_type_specification]
#[verifier::external_body]
pub struct ExHandlebars<'reg>(handlebars::Handlebars<'reg>);

/// The texts of the templates in a registry, by their names.
pub uninterp spec fn templates_of(registry: handlebars::Handlebars<'static>) -> Map<
    Seq<char>,
    Seq<char>,
>;

/// The text can be compiled as a template.
pub uninterp spec fn template_compiles(template: Seq<char>) -> bool;

/// [`handlebars::Handlebars::register_template_string`]: a text that can be compiled takes its
/// place under its name, over one that may be there, and any other text changes nothing. Whether
/// a text can be compiled is fixed by the text alone. The words of the error are left open: some
/// of them print a hash map, whose order differs from call to call.
#[verifier::external_body]
fn register_template(
    registry: &mut handlebars::Handlebars<'static>,
    name: &str,
    template: &str,
) -> (r: Result<(), String>)
    ensures
        match r {
            Ok(_) => template_compiles(template@) && templates_of(*final(registry))
                == templates_of(*old(registry)).insert(name@, template@),
            Err(_) => !template_compiles(template@) && templates_of(*final(registry))
                == templates_of(*old(registry)),
        },
{
    match registry.register_template_string(name, template) {
        Ok(()) => Ok(()),
        Err(error) => Err(error.to_string()),
    }
}

/// A template with a marker in place of each separator, ready to be compiled.
pub fn path_safe_template(template: &str, separator: char) -> (r: String)
    ensures
        r@ == replaced(template@, seq![separator], "__SEP__"@),
{
    let mut from = String::new();
    from.push(separator);
    assert(from@ =~= seq![separator]);
    replace_all(template, from.as_str(), "__SEP__")
}

/// Registers a path template under a name, with a marker in place of each separator. Where it
/// cannot be compiled the registry stays as it is, and the error comes in the words of
/// handlebars.
pub fn path_safe_register(
    registry: &mut handlebars::Handlebars<'static>,
    name: &str,
    template: &str,
    separator: char,
) -> (r: Result<(), String>)
    ensures
        ({
            let marked = replaced(template@, seq![separator], "__SEP__"@);
            match r {
                Ok(_) => template_compiles(marked) && templates_of(*final(registry))
                    == templates_of(*old(registry)).insert(name@, marked),
                Err(_) => !template_compiles(marked) && templates_of(*final(registry))
                    == templates_of(*old(registry)),
            }
        }),
{
    let marked = path_safe_template(template, separator);
    register_template(registry, name, marked.as_str())
}

/// A rendered and cleaned text with a separator in place of each marker.
pub fn path_safe_text(rendered: &str, separator: char) -> (r: String)
    ensures
        r@ == replaced(rendered@, "__SEP__"@, seq![separator]),
{
    let mut to = String::new();
    to.push(separator);
    assert(to@ =~= seq![separator]);
    proof {
        reveal_strlit("__SEP__");
    }
    replace_all(rendered, "__SEP__", to.as_str())
}

/// The text could not be mistaken for one with markers: the marker stands nowhere in it, and no
/// separator in it stands behind what could be the beginning of an overlapping marker.
pub open spec fn unambiguous(text: Seq<char>, separator: char) -> bool {
    &&& forall|i: int| !#[trigger] occurs_at(text, "__SEP__"@, i)
    &&& forall|i: int|
        0 <= i < text.len() && #[trigger] text[i] == separator ==> !occurs_at(
            text,
            "__SEP"@,
            i - 5,
        ) && !occurs_at(text, "__SEP_"@, i - 6)
}

proof fn lemma_marker()
    ensures
        "__SEP__"@ == seq!['_', '_', 'S', 'E', 'P', '_', '_'],
        "__SEP_"@ == seq!['_', '_', 'S', 'E', 'P', '_'],
        "__SEP"@ == seq!['_', '_', 'S', 'E', 'P'],
{
    reveal_strlit("__SEP__");
    reveal_strlit("__SEP_");
    reveal_strlit("__SEP");
    assert("__SEP__"@ =~= seq!['_', '_', 'S', 'E', 'P', '_', '_']);
    assert("__SEP_"@ =~= seq!['_', '_', 'S', 'E', 'P', '_']);
    assert("__SEP"@ =~= seq!['_', '_', 'S', 'E', 'P']);
}

proof fn lemma_unambiguous_tail(text: Seq<char>, separator: char)
    requires
        text.len() > 0,
        unambiguous(text, separator),
    ensures
        unambiguous(text.skip(1), separator),
{
    let tail = text.skip(1);
    assert forall|i: int| !#[trigger] occurs_at(tail, "__SEP__"@, i) by {
        if occurs_at(tail, "__SEP__"@, i) {
            assert(text.subrange(i + 1, i + 1 + "__SEP__"@.len()) =~= tail.subrange(
                i,
                i + "__SEP__"@.len(),
            ));
            assert(occurs_at(text, "__SEP__"@, i + 1));
        }
    }
    assert forall|i: int|
        0 <= i < tail.len() && #[trigger] tail[i] == separator implies !occurs_at(
        tail,
        "__SEP"@,
        i - 5,
    ) && !occurs_at(tail, "__SEP_"@, i - 6) by {
        assert(text[i + 1] == tail[i]);
        if occurs_at(tail, "__SEP"@, i - 5) {
            lemma_marker();
            assert(text.subrange(i - 4, i + 1) =~= tail.subrange(i - 5, i));
        }
        if occurs_at(tail, "__SEP_"@, i - 6) {
            lemma_marker();
            assert(text.subrange(i - 5, i + 1) =~= tail.subrange(i - 6, i));
        }
    }
}

proof fn lemma_run_is_kept(text: Seq<char>, separator: char, k: int)
    requires
        0 <= k <= text.len(),
        forall|i: int| 0 <= i < k ==> #[trigger] text[i] != separator,
    ensures
        replaced(text, seq![separator], "__SEP__"@) == text.take(k) + replaced(
            text.skip(k),
            seq![separator],
            "__SEP__"@,
        ),
    decreases k,
{
    if k == 0 {
        assert(text.skip(0) =~= text);
        assert(text.take(0) + text.skip(0) =~= text);
        assert(text.take(0) + replaced(text.skip(0), seq![separator], "__SEP__"@) =~= replaced(
            text,
            seq![separator],
            "__SEP__"@,
        ));
    } else {
        let tail = text.skip(1);
        assert(forall|i: int| 0 <= i < k - 1 ==> #[trigger] tail[i] == text[i + 1]);
        lemma_run_is_kept(tail, separator, k - 1);
        assert(text.take(1)[0] == text[0]);
        assert(text.take(1) != seq![separator]) by {
            assert(seq![separator][0] == separator);
        }
        assert(tail.skip(k - 1) =~= text.skip(k));
        assert(seq![text[0]] + (tail.take(k - 1) + replaced(
            text.skip(k),
            seq![separator],
            "__SEP__"@,
        )) =~= text.take(k) + replaced(text.skip(k), seq![separator], "__SEP__"@));
    }
}

proof fn lemma_no_early_marker(text: Seq<char>, separator: char)
    requires
        separator == '/' || separator == '\\',
        text.len() > 0,
        text[0] != separator,
        unambiguous(text, separator),
    ensures
        ({
            let marked = replaced(text, seq![separator], "__SEP__"@);
            marked.len() >= 7 ==> marked.take(7) != "__SEP__"@
        }),
{
    lemma_marker();
    let marked = replaced(text, seq![separator], "__SEP__"@);
    if marked.len() >= 7 && marked.take(7) == "__SEP__"@ {
        assert(forall|j: int| 0 <= j < 7 ==> marked[j] == #[trigger] marked.take(7)[j]);
        let k = lemma_first_separator(text, separator);
        lemma_run_is_kept(text, separator, k);
        let rest = replaced(text.skip(k), seq![separator], "__SEP__"@);
        assert(forall|j: int| 0 <= j < k ==> marked[j] == #[trigger] text[j]);
        if k >= 7 {
            assert(text.subrange(0, 7) =~= marked.take(7));
            assert(occurs_at(text, "__SEP__"@, 0));
        } else if k == text.len() {
            assert(text.skip(k) =~= Seq::empty());
            assert(marked =~= text);
        } else {
            assert(text.skip(k)[0] == separator);
            assert(text.skip(k).take(1) =~= seq![separator]);
            assert(forall|m: int| 0 <= m < 7 ==> #[trigger] rest[m] == "__SEP__"@[m]);
            assert(forall|m: int| 0 <= m < rest.len() ==> marked[k + m] == #[trigger] rest[m]);
            assert(marked[k] == '_' && marked[k + 1] == '_' && marked[k + 2] == 'S');
            assert(marked[0] == '_' && marked[1] == '_' && marked[2] == 'S' && marked[3] == 'E'
                && marked[4] == 'P' && marked[5] == '_' && marked[6] == '_');
            if k == 5 {
                assert(text.subrange(0, 5) =~= "__SEP"@);
                assert(text[5] == separator);
                assert(occurs_at(text, "__SEP"@, 0));
            } else if k == 6 {
                assert(text.subrange(0, 6) =~= "__SEP_"@);
                assert(text[6] == separator);
                assert(occurs_at(text, "__SEP_"@, 0));
            }
        }
    }
}

proof fn lemma_first_separator(text: Seq<char>, separator: char) -> (k: int)
    ensures
        0 <= k <= text.len(),
        forall|i: int| 0 <= i < k ==> #[trigger] text[i] != separator,
        k < text.len() ==> text[k] == separator,
    decreases text.len(),
{
    if text.len() == 0 || text[0] == separator {
        0
    } else {
        let tail = text.skip(1);
        let k = lemma_first_separator(tail, separator);
        assert forall|i: int| 0 <= i < k + 1 implies #[trigger] text[i] != separator by {
            if i > 0 {
                assert(tail[i - 1] == text[i]);
            }
        }
        k + 1
    }
}

/// The separators of a template come back, and nothing else changes: this holds of every text
/// that could not be mistaken for one with markers.
pub proof fn law_separators_come_back(text: Seq<char>, separator: char)
    requires
        separator == '/' || separator == '\\',
        unambiguous(text, separator),
    ensures
        replaced(replaced(text, seq![separator], "__SEP__"@), "__SEP__"@, seq![separator]) == text,
    decreases text.len(),
{
    lemma_marker();
    let marker = "__SEP__"@;
    let marked = replaced(text, seq![separator], marker);
    if text.len() == 0 {
        assert(marked =~= text);
    } else {
        let tail = text.skip(1);
        lemma_unambiguous_tail(text, separator);
        law_separators_come_back(tail, separator);
        let marked_tail = replaced(tail, seq![separator], marker);
        if text[0] == separator {
            assert(text.take(1) =~= seq![separator]);
            assert(marked == marker + marked_tail);
            assert(marked.take(7) =~= marker);
            assert(marked.skip(7) =~= marked_tail);
            assert(seq![separator] + tail =~= text);
        } else {
            assert(text.take(1)[0] == text[0]);
            assert(text.take(1) != seq![separator]) by {
                assert(seq![separator][0] == separator);
            }
            assert(marked == seq![text[0]] + marked_tail);
            lemma_no_early_marker(text, separator);
            assert(marked.skip(1) =~= marked_tail);
            assert(seq![text[0]] + tail =~= text);
            if marked.len() < 7 {
                assert(replaced(marked, marker, seq![separator]) == marked);
                assert(replaced(marked_tail, marker, seq![separator]) == marked_tail);
            } else {
                assert(replaced(marked, marker, seq![separator]) == seq![marked[0]] + replaced(
                    marked.skip(1),
                    marker,
                    seq![separator],
                ));
            }
        }
    }
}

/// Before a template is compiled, each separator in it gives way to the marker `__SEP__`, and so
/// none is left; what stands between them stays. In a rendered text each marker gives way to the
/// separator.
pub proof fn law_markers_stand_for_separators(
    template: &str,
    separator: char,
    marked: String,
    rendered: &str,
    path: String,
    registry_name: &str,
)
    requires
        call_ensures(path_safe_template, (template, separator), marked),
        call_ensures(path_safe_text, (rendered, separator), path),
    ensures
        marked@ == replaced(template@, seq![separator], "__SEP__"@),
        path@ == replaced(rendered@, "__SEP__"@, seq![separator]),
        separator == '/' || separator == '\\' ==> forall|i: int|
            0 <= i < marked@.len() ==> marked@[i] != separator,
        forall|registry: &mut handlebars::Handlebars<'static>, r: Result<(), String>| #[trigger]
            call_ensures(
                path_safe_register,
                (registry, registry_name, template, separator),
                r,
            ) ==> (r is Ok <==> template_compiles(marked@)) && (if r is Ok {
                templates_of(*final(registry)) == templates_of(*registry).insert(
                    registry_name@,
                    marked@,
                )
            } else {
                templates_of(*final(registry)) == templates_of(*registry)
            }),
{
    if separator == '/' || separator == '\\' {
        lemma_no_separator_is_left(template@, separator);
    }
}

proof fn lemma_no_separator_is_left(text: Seq<char>, separator: char)
    requires
        separator == '/' || separator == '\\',
    ensures
        forall|i: int|
            0 <= i < replaced(text, seq![separator], "__SEP__"@).len() ==> replaced(
                text,
                seq![separator],
                "__SEP__"@,
            )[i] != separator,
    decreases text.len(),
{
    lemma_marker();
    let from = seq![separator];
    let marked = replaced(text, from, "__SEP__"@);
    if text.len() == 0 {
        assert(marked == text);
    } else {
        let rest = replaced(text.skip(1), from, "__SEP__"@);
        lemma_no_separator_is_left(text.skip(1), separator);
        if text[0] == separator {
            assert(text.take(1) =~= from);
            assert(marked == "__SEP__"@ + rest);
            assert forall|i: int| 0 <= i < marked.len() implies marked[i] != separator by {
                if i >= 7 {
                    assert(marked[i] == rest[i - 7]);
                } else {
                    assert(marked[i] == "__SEP__"@[i]);
                }
            }
        } else {
            assert(text.take(1)[0] == text[0]);
            assert(from[0] == separator);
            assert(marked == seq![text[0]] + rest);
            assert forall|i: int| 0 <= i < marked.len() implies marked[i] != separator by {
                if i >= 1 {
                    assert(marked[i] == rest[i - 1]);
                }
            }
        }
    }
}

} // verus!
