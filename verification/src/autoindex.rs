//! The autoindex renderer: a directory listing as an HTML table.
//!
//! Entries with empty, one-character, or dot-prefixed names are skipped.
//! File rows carry a human-readable size and the last-modified time as
//! epoch seconds (left empty when unavailable); a client-side script turns
//! the epoch cells into locale date strings after load. Directory rows have
//! empty size and time cells and link with a trailing `/`.

use vstd::prelude::*;
use vstd::string::{StrSliceExecFns, StringExecFns};
use crate::metadata::{entries_view, EntryV, MetaV, StorageEntry, StorageMetadata};
use crate::strutil::ends_with_slash;
use crate::textnum::{dec_int_of, i64_to_dec};

verus! {

pub const PAGE_HEAD: &'static str = r#"<!doctype html>
<html lang="en">
    <head>
        <meta charset="utf-8" />
        <style>
            * {
                margin: 0;
                padding: 0;
            }
            table {
                width: 100%;
            }
            a {
                color: #333;
            }
            .size {
                width: 180px;
                text-align: left;
            }
            .lastModified {
                width: 280px;
                text-align: right;
            }
            th, td {
                padding: 10px;
            }
            thead {
                background-color: #f0f0f0;
            }
            tr:nth-child(even) {
                background-color: #f0f0f0;
            }
        </style>
        <script type="text/javascript">
        function updateAllLastModified() {
            Array.from(document.getElementsByClassName("lastModified")).forEach((item, index) => {
                if (index == 0) {
                    return;
                }
                const ts = item.innerHTML;
                if (!ts) {
                    item.innerHTML = "--";
                    return;
                }
                const date = new Date(ts * 1000);
                if (isFinite(date)) {
                    item.innerHTML = date.toLocaleString();
                }
            });
        }
        document.addEventListener("DOMContentLoaded", (event) => {
          updateAllLastModified();
        });
        </script>
    </head>
    <body>
        <table border="0" cellpadding="0" cellspacing="0">
            <thead>
                <th class="name">File Name</th>
                <th class="size">Size</th>
                <th class="lastModified">Last Modified</th>
            </thead>
            <tbody>
"#;

pub const PAGE_TAIL: &'static str = r#"            </tbody>
        </table>
    </body>
</html>
"#;

pub const ROW_OPEN: &'static str = r#"<tr><td class="name"><a href=""#;

pub const ROW_NAME: &'static str = r#"">"#;

pub const ROW_SIZE: &'static str = r#"</a></td><td class="size">"#;

pub const ROW_TIME: &'static str = r#"</td><td class="lastModified">"#;

pub const ROW_END: &'static str = r#"</td></tr>"#;

/// What `bytesize` prints for a byte count, such as `215 B` or `1.0 KiB`.
pub uninterp spec fn human_size(n: u64) -> Seq<char>;

/// Relies on bytesize's `Display`: a human-readable rendering of the byte
/// count in binary units; a function of the count alone, and never empty
/// (small counts print as `{n} B`, larger ones as a scaled value with a
/// unit suffix).
#[verifier::external_body]
fn format_size(n: u64) -> (r: String)
    ensures
        r@ == human_size(n),
        r@.len() > 0,
{
    bytesize::ByteSize(n).to_string()
}

/// An entry is listed only when its name is longer than one character and
/// does not start with a dot.
pub open spec fn entry_visible(name: Seq<char>) -> bool {
    name.len() > 1 && name[0] != '.'
}

/// The link target: `./` plus the entry path, with a `/` appended for a
/// directory that does not already end with one.
pub open spec fn spec_target(path: Seq<char>, is_dir: bool) -> Seq<char> {
    let base = "./"@ + path;
    if is_dir && !(path.len() > 0 && path.last() == '/') {
        base + "/"@
    } else {
        base
    }
}

/// The size cell: the human-readable size for files, empty for directories.
pub open spec fn spec_size_cell(meta: MetaV) -> Seq<char> {
    if meta.is_dir {
        Seq::empty()
    } else {
        human_size(meta.size)
    }
}

/// The last-modified cell: epoch seconds for files that report a time,
/// empty otherwise.
pub open spec fn spec_time_cell(meta: MetaV) -> Seq<char> {
    if meta.is_dir {
        Seq::empty()
    } else {
        match meta.last_modified {
            Some(t) => dec_int_of(t as int),
            None => Seq::empty(),
        }
    }
}

/// One table row.
pub open spec fn spec_row(e: EntryV) -> Seq<char> {
    ROW_OPEN@ + spec_target(e.path, e.metadata.is_dir) + ROW_NAME@ + e.name + ROW_SIZE@
        + spec_size_cell(e.metadata) + ROW_TIME@ + spec_time_cell(e.metadata) + ROW_END@
}

/// The visible rows, joined by newlines. `first` says whether no row has
/// been emitted yet.
pub open spec fn spec_rows(entries: Seq<EntryV>, first: bool) -> Seq<char>
    decreases entries.len(),
{
    if entries.len() == 0 {
        Seq::empty()
    } else {
        let e = entries[0];
        if entry_visible(e.name) {
            (if first {
                spec_row(e)
            } else {
                "\n"@ + spec_row(e)
            }) + spec_rows(entries.skip(1), false)
        } else {
            spec_rows(entries.skip(1), first)
        }
    }
}

/// The full listing page.
pub open spec fn spec_autoindex_page(entries: Seq<EntryV>) -> Seq<char> {
    PAGE_HEAD@ + spec_rows(entries, true) + PAGE_TAIL@
}

/// The size cell of one entry; for a file it is never empty.
pub fn size_cell(meta: &StorageMetadata) -> (r: String)
    ensures
        r@ == spec_size_cell(meta@),
        !meta.is_dir ==> r@.len() > 0,
{
    if meta.is_dir {
        let r = String::new();
        proof {
            assert(r@ =~= spec_size_cell(meta@));
        }
        r
    } else {
        format_size(meta.size)
    }
}

fn time_cell(meta: &StorageMetadata) -> (r: String)
    ensures
        r@ == spec_time_cell(meta@),
{
    if meta.is_dir {
        let r = String::new();
        proof {
            assert(r@ =~= spec_time_cell(meta@));
        }
        r
    } else {
        match meta.last_modified {
            Some(t) => i64_to_dec(t),
            None => {
                let r = String::new();
                proof {
                    assert(r@ =~= spec_time_cell(meta@));
                }
                r
            },
        }
    }
}

fn render_row(e: &StorageEntry) -> (r: String)
    ensures
        r@ == spec_row(e@),
        !e.metadata.is_dir ==> spec_size_cell(e@.metadata).len() > 0,
{
    let mut r = ROW_OPEN.to_owned();
    r.append("./");
    r.append(e.path.as_str());
    if e.metadata.is_dir && !ends_with_slash(e.path.as_str()) {
        r.append("/");
    }
    r.append(ROW_NAME);
    r.append(e.name.as_str());
    r.append(ROW_SIZE);
    r.append(size_cell(&e.metadata).as_str());
    r.append(ROW_TIME);
    r.append(time_cell(&e.metadata).as_str());
    r.append(ROW_END);
    proof {
        assert(r@ =~= spec_row(e@));
    }
    r
}

/// Renders the directory listing page for the given entries. Hidden
/// entries (empty, one-character, or dot-prefixed names) are excluded, and
/// every listed file entry carries a non-empty size text in its row.
pub fn render_autoindex(entries: &Vec<StorageEntry>) -> (r: String)
    ensures
        r@ == spec_autoindex_page(entries_view(entries@)),
        forall|j: int|
            0 <= j < entries@.len() && entry_visible(#[trigger] entries@[j]@.name)
                && !entries@[j]@.metadata.is_dir ==> spec_size_cell(
                entries@[j]@.metadata,
            ).len() > 0,
{
    let mut r = PAGE_HEAD.to_owned();
    let mut first = true;
    let mut i: usize = 0;
    let ghost ev = entries_view(entries@);
    proof {
        assert(ev.skip(0) =~= ev);
    }
    while i < entries.len()
        invariant
            0 <= i <= entries@.len(),
            ev == entries_view(entries@),
            r@ + spec_rows(ev.skip(i as int), first) == PAGE_HEAD@ + spec_rows(ev, true),
            forall|j: int|
                0 <= j < i && entry_visible(#[trigger] entries@[j]@.name)
                    && !entries@[j]@.metadata.is_dir ==> spec_size_cell(
                    entries@[j]@.metadata,
                ).len() > 0,
        decreases entries@.len() - i,
    {
        let ghost pre = r@;
        let ghost rest = ev.skip(i as int);
        let ghost was_first = first;
        let e = &entries[i];
        let name_len = e.name.as_str().unicode_len();
        let visible = name_len > 1 && e.name.as_str().get_char(0) != '.';
        if visible {
            if !first {
                r.append("\n");
            }
            let row = render_row(e);
            r.append(row.as_str());
            first = false;
        }
        proof {
            assert(rest[0] == ev[i as int]);
            assert(rest.skip(1) =~= ev.skip(i + 1));
            if visible {
                assert(r@ =~= pre + (if was_first {
                    spec_row(rest[0])
                } else {
                    "\n"@ + spec_row(rest[0])
                }));
                assert(r@ + spec_rows(ev.skip(i + 1), false) =~= pre + spec_rows(rest, was_first));
            }
        }
        i = i + 1;
    }
    proof {
        assert(ev.skip(ev.len() as int).len() == 0);
        assert(r@ =~= PAGE_HEAD@ + spec_rows(ev, true));
    }
    r.append(PAGE_TAIL);
    proof {
        assert(r@ =~= spec_autoindex_page(ev));
    }
    r
}

/// An entry with an empty, one-character, or dot-prefixed name never
/// appears: removing it from the listed entries leaves the rendered rows
/// unchanged.
pub proof fn lemma_hidden_entry_excluded(entries: Seq<EntryV>, i: int, first: bool)
    requires
        0 <= i < entries.len(),
        !entry_visible(entries[i].name),
    ensures
        spec_rows(entries.remove(i), first) == spec_rows(entries, first),
    decreases entries.len(),
{
    if i == 0 {
        assert(entries.remove(0) =~= entries.skip(1));
    } else {
        assert(entries.remove(i).skip(1) =~= entries.skip(1).remove(i - 1));
        assert(entries.remove(i)[0] == entries[0]);
        if entry_visible(entries[0].name) {
            lemma_hidden_entry_excluded(entries.skip(1), i - 1, false);
        } else {
            lemma_hidden_entry_excluded(entries.skip(1), i - 1, first);
        }
    }
}

} // verus!
