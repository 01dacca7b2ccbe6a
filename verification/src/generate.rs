//! A batch of queries turned into output units, one per source file.

use vstd::prelude::*;
use crate::error::{SerializeError, SerializeErrorView};
use crate::model::{query_views, Query, QueryView};
use crate::serialize::{serialize, serialized};
use crate::text::{str_eq, strip_suffix};

verus! {

/// One generated file.
#[derive(Debug)]
pub struct OutputUnit {
    /// Name of the file to write.
    pub name: String,
    /// The whole text of the file.
    pub contents: String,
}

/// What an [`OutputUnit`] holds, as mathematical values.
pub struct OutputUnitView {
    pub name: Seq<char>,
    pub contents: Seq<char>,
}

impl View for OutputUnit {
    type V = OutputUnitView;

    open spec fn view(&self) -> OutputUnitView {
        OutputUnitView { name: self.name@, contents: self.contents@ }
    }
}

/// The views of a vector of output units, in order.
pub open spec fn output_unit_views(units: Seq<OutputUnit>) -> Seq<OutputUnitView> {
    Seq::new(units.len(), |i: int| units[i]@)
}

/// The extension of the files that queries are read from.
pub const SOURCE_EXTENSION: &'static str = ".sql";

/// The extension of the files that are generated.
pub const OUTPUT_EXTENSION: &'static str = ".ts";

/// The name of the file generated for a source file: the extension of
/// source files, where the name ends with it, gives way to the extension of
/// generated files; another name gets that extension added.
pub open spec fn output_name(source: Seq<char>) -> Seq<char> {
    if SOURCE_EXTENSION@.is_suffix_of(source) {
        source.subrange(0, source.len() - SOURCE_EXTENSION@.len()) + OUTPUT_EXTENSION@
    } else {
        source + OUTPUT_EXTENSION@
    }
}

/// Names the file generated for a source file.
pub fn target_name(source: &str) -> (r: String)
    ensures
        r@ == output_name(source@),
{
    let stem = match strip_suffix(source, SOURCE_EXTENSION) {
        Some(stem) => stem,
        None => source,
    };
    let mut name = String::from_str(stem);
    name.append(OUTPUT_EXTENSION);
    name
}

/// The lines that every output unit starts with: the import of the two
/// types that the generated text refers to, from the configured module.
pub open spec fn preamble(types_path: Seq<char>) -> Seq<char> {
    "import type { BoundQuery, Query } from \""@ + types_path + "\"\n\n"@
}

/// Writes the lines that every output unit starts with.
pub fn render_preamble(types_path: &str) -> (r: String)
    ensures
        r@ == preamble(types_path@),
{
    let mut text = String::from_str("import type { BoundQuery, Query } from \"");
    text.append(types_path);
    text.append("\"\n\n");
    text
}

/// The source files of a batch: each file once, in the order in which the
/// files first occur in the batch.
pub open spec fn source_files(queries: Seq<QueryView>) -> Seq<Seq<char>>
    decreases queries.len(),
{
    if queries.len() == 0 {
        Seq::empty()
    } else {
        let earlier = source_files(queries.drop_last());
        let file = queries.last().filename;
        if earlier.contains(file) {
            earlier
        } else {
            earlier.push(file)
        }
    }
}

/// What a query adds to the output unit of its file: its text and a line
/// break.
pub open spec fn query_block(query: QueryView) -> Seq<char> {
    match serialized(query) {
        Ok(text) => text + "\n"@,
        Err(_) => Seq::empty(),
    }
}

/// What the queries of one source file add to its output unit: the block of
/// each of them, in the order of the batch.
pub open spec fn file_blocks(queries: Seq<QueryView>, file: Seq<char>) -> Seq<char>
    decreases queries.len(),
{
    if queries.len() == 0 {
        Seq::empty()
    } else if queries.last().filename == file {
        file_blocks(queries.drop_last(), file) + query_block(queries.last())
    } else {
        file_blocks(queries.drop_last(), file)
    }
}

/// The error of the first query of the batch that cannot be turned into
/// text.
pub open spec fn first_failure(queries: Seq<QueryView>) -> Option<SerializeErrorView>
    decreases queries.len(),
{
    if queries.len() == 0 {
        None
    } else {
        match serialized(queries[0]) {
            Err(e) => Some(e),
            Ok(_) => first_failure(queries.drop_first()),
        }
    }
}

/// The output unit of one source file of a batch.
pub open spec fn output_unit(
    queries: Seq<QueryView>,
    types_path: Seq<char>,
    file: Seq<char>,
) -> OutputUnitView {
    OutputUnitView {
        name: output_name(file),
        contents: preamble(types_path) + file_blocks(queries, file),
    }
}

/// What a batch is turned into: one output unit per source file, in the
/// order in which the files first occur. A single query that cannot be turned
/// into text leaves the batch without any output.
pub open spec fn generated(queries: Seq<QueryView>, types_path: Seq<char>) -> Result<
    Seq<OutputUnitView>,
    SerializeErrorView,
> {
    match first_failure(queries) {
        Some(e) => Err(e),
        None => Ok(
            Seq::new(
                source_files(queries).len(),
                |i: int| output_unit(queries, types_path, source_files(queries)[i]),
            ),
        ),
    }
}

/// No source file is listed twice.
pub proof fn lemma_source_files_distinct(queries: Seq<QueryView>)
    ensures
        source_files(queries).no_duplicates(),
    decreases queries.len(),
{
    if queries.len() > 0 {
        lemma_source_files_distinct(queries.drop_last());
    }
}

/// A file that is not among the source files of a batch has no blocks.
pub proof fn lemma_unlisted_file_is_empty(queries: Seq<QueryView>, file: Seq<char>)
    requires
        !source_files(queries).contains(file),
    ensures
        file_blocks(queries, file) == Seq::<char>::empty(),
    decreases queries.len(),
{
    if queries.len() > 0 {
        let earlier = source_files(queries.drop_last());
        let last = queries.last().filename;
        if earlier.contains(last) {
        } else {
            assert(earlier.push(last)[earlier.len() as int] == last);
            assert forall|i: int| 0 <= i < earlier.len() implies earlier[i] != file by {
                assert(earlier.push(last)[i] == earlier[i]);
            }
        }
        lemma_unlisted_file_is_empty(queries.drop_last(), file);
    }
}

/// The queries of one source file read so far, while a batch is scanned.
struct Group {
    source: String,
    contents: String,
}

/// Finds the group of a source file.
fn find_group(groups: &Vec<Group>, file: &str) -> (r: Option<usize>)
    ensures
        match r {
            Some(k) => k < groups.len() && groups[k as int].source@ == file@,
            None => forall|k: int| 0 <= k < groups.len() ==> groups[k].source@ != file@,
        },
{
    let mut k: usize = 0;
    while k < groups.len()
        invariant
            k <= groups.len(),
            forall|j: int| 0 <= j < k ==> groups[j].source@ != file@,
        decreases groups.len() - k,
    {
        if str_eq(groups[k].source.as_str(), file) {
            return Some(k);
        }
        k += 1;
    }
    None
}

/// Whether the groups hold what the scanned part of a batch gives.
spec fn groups_hold(groups: Seq<Group>, scanned: Seq<QueryView>, types_path: Seq<char>) -> bool {
    &&& groups.len() == source_files(scanned).len()
    &&& forall|k: int|
        0 <= k < groups.len() ==> {
            &&& (#[trigger] groups[k]).source@ == source_files(scanned)[k]
            &&& groups[k].contents@ == preamble(types_path) + file_blocks(
                scanned,
                source_files(scanned)[k],
            )
        }
}

/// The groups stay as they should be when the next query is added to the
/// group of its file, which is there already.
proof fn lemma_scan_known_file(
    before: Seq<Group>,
    after: Seq<Group>,
    scanned: Seq<QueryView>,
    query: QueryView,
    types_path: Seq<char>,
    k: int,
)
    requires
        groups_hold(before, scanned, types_path),
        0 <= k < before.len(),
        before[k].source@ == query.filename,
        after.len() == before.len(),
        forall|j: int| 0 <= j < before.len() && j != k ==> after[j] == before[j],
        after[k].source@ == before[k].source@,
        after[k].contents@ == before[k].contents@ + query_block(query),
    ensures
        groups_hold(after, scanned.push(query), types_path),
{
    let next = scanned.push(query);
    let files = source_files(scanned);
    assert(next.drop_last() =~= scanned);
    assert(next.last() == query);
    assert(files[k] == query.filename);
    assert(files.contains(query.filename));
    assert(source_files(next) == files);
    lemma_source_files_distinct(scanned);
    assert forall|j: int| 0 <= j < after.len() implies {
        &&& (#[trigger] after[j]).source@ == files[j]
        &&& after[j].contents@ == preamble(types_path) + file_blocks(next, files[j])
    } by {
        assert(before[j].source@ == files[j]);
        if j == k {
            assert(file_blocks(next, files[j]) == file_blocks(scanned, files[j]) + query_block(
                query,
            ));
            assert(after[j].contents@ =~= preamble(types_path) + file_blocks(next, files[j]));
        } else {
            assert(files[j] != files[k]);
            assert(file_blocks(next, files[j]) == file_blocks(scanned, files[j]));
        }
    }
}

/// The groups stay as they should be when the next query opens the group of
/// a file that has none yet.
proof fn lemma_scan_new_file(
    before: Seq<Group>,
    after: Seq<Group>,
    scanned: Seq<QueryView>,
    query: QueryView,
    types_path: Seq<char>,
)
    requires
        groups_hold(before, scanned, types_path),
        forall|k: int| 0 <= k < before.len() ==> (#[trigger] before[k]).source@ != query.filename,
        after.len() == before.len() + 1,
        forall|j: int| 0 <= j < before.len() ==> after[j] == before[j],
        after[before.len() as int].source@ == query.filename,
        after[before.len() as int].contents@ == preamble(types_path) + query_block(query),
    ensures
        groups_hold(after, scanned.push(query), types_path),
{
    let next = scanned.push(query);
    let files = source_files(scanned);
    assert(next.drop_last() =~= scanned);
    assert(next.last() == query);
    assert(!files.contains(query.filename)) by {
        if files.contains(query.filename) {
            let k = choose|k: int| 0 <= k < files.len() && files[k] == query.filename;
            assert(before[k].source@ == files[k]);
        }
    }
    assert(source_files(next) == files.push(query.filename));
    lemma_unlisted_file_is_empty(scanned, query.filename);
    assert forall|j: int| 0 <= j < after.len() implies {
        &&& (#[trigger] after[j]).source@ == source_files(next)[j]
        &&& after[j].contents@ == preamble(types_path) + file_blocks(
            next,
            source_files(next)[j],
        )
    } by {
        if j < before.len() {
            assert(before[j].source@ == files[j]);
            assert(source_files(next)[j] == files[j]);
            assert(files.contains(files[j]));
            assert(files[j] != query.filename);
            assert(file_blocks(next, files[j]) == file_blocks(scanned, files[j]));
        } else {
            assert(source_files(next)[j] == query.filename);
            assert(file_blocks(next, query.filename) == file_blocks(scanned, query.filename)
                + query_block(query));
            assert(after[j].contents@ =~= preamble(types_path) + file_blocks(
                next,
                query.filename,
            ));
        }
    }
}

/// Adds the block of the next query of a batch to the group of its file,
/// and opens the group with the preamble if the file has none yet.
fn add_block(
    groups: &mut Vec<Group>,
    header: &String,
    file: String,
    block: &str,
    Ghost(scanned): Ghost<Seq<QueryView>>,
    Ghost(query): Ghost<QueryView>,
    Ghost(types_path): Ghost<Seq<char>>,
)
    requires
        groups_hold(old(groups)@, scanned, types_path),
        header@ == preamble(types_path),
        file@ == query.filename,
        block@ == query_block(query),
    ensures
        groups_hold(final(groups)@, scanned.push(query), types_path),
{
    let ghost before = groups@;
    match find_group(groups, file.as_str()) {
        Some(k) => {
            groups[k].contents.append(block);
            proof {
                lemma_scan_known_file(before, groups@, scanned, query, types_path, k as int);
            }
        },
        None => {
            let mut contents = header.clone();
            contents.append(block);
            groups.push(Group { source: file, contents });
            proof {
                lemma_scan_new_file(before, groups@, scanned, query, types_path);
            }
        },
    }
}

/// Turns a batch of queries into output units. The queries are read in
/// order; each adds its text to the unit of its source file, and the units
/// come out in the order in which their files first occur. The first query
/// that cannot be turned into text ends the pass with its error.
pub fn generate(queries: Vec<Query>, types_path: &str) -> (r: Result<Vec<OutputUnit>, SerializeError>)
    ensures
        match generated(query_views(queries@), types_path@) {
            Ok(units) => r matches Ok(v) && output_unit_views(v@) == units,
            Err(e) => r matches Err(x) && x@ == e,
        },
{
    let ghost all = query_views(queries@);
    let header = render_preamble(types_path);
    let mut groups: Vec<Group> = Vec::new();
    assert(all.skip(0) =~= all);
    assert(all.take(0) =~= Seq::<QueryView>::empty());
    for query in iter: queries
        invariant
            all == query_views(queries@),
            iter.seq() == queries@,
            header@ == preamble(types_path@),
            first_failure(all) == first_failure(all.skip(iter.index() as int)),
            groups_hold(groups@, all.take(iter.index() as int), types_path@),
    {
        let ghost i = iter.index() as int;
        proof {
            assert(all.skip(i)[0] == all[i]);
            assert(all.skip(i).drop_first() =~= all.skip(i + 1));
            assert(all.take(i + 1) =~= all.take(i).push(all[i]));
            assert(query@ == all[i]);
        }
        let file = query.filename.clone();
        let mut block = match serialize(query) {
            Ok(text) => text,
            Err(e) => {
                return Err(e);
            },
        };
        block.append("\n");
        add_block(
            &mut groups,
            &header,
            file,
            block.as_str(),
            Ghost(all.take(i)),
            Ghost(all[i]),
            Ghost(types_path@),
        );
    }
    assert(all.take(all.len() as int) =~= all);
    assert(all.skip(all.len() as int) =~= Seq::<QueryView>::empty());
    let mut units: Vec<OutputUnit> = Vec::new();
    let mut k: usize = 0;
    while k < groups.len()
        invariant
            k <= groups.len(),
            groups_hold(groups@, all, types_path@),
            units@.len() == k,
            forall|j: int|
                0 <= j < k ==> (#[trigger] units@[j])@ == output_unit(
                    all,
                    types_path@,
                    source_files(all)[j],
                ),
        decreases groups.len() - k,
    {
        let group = &groups[k];
        units.push(
            OutputUnit { name: target_name(group.source.as_str()), contents: group.contents.clone() },
        );
        k += 1;
    }
    Ok(units)
}

} // verus!
