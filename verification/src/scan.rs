//! The summary of a directory scan: which of the files that were found
//! can be processed, how large they are together, how many were passed
//! over, and the files in the order of their names.

use crate::text::{
    chars_of, lemma_text_le_reflexive, lemma_text_le_total, lemma_text_le_transitive, lowercase,
    lowercase_of, precedes, text_le,
};
use crate::validate::{allowed_extension, check_extension};
use vstd::prelude::*;
use vstd::string::*;

verus! {

/// A file that can be processed.
#[derive(Clone, Debug, PartialEq, Eq)]
pub struct ScannedFile {
    pub path: String,
    pub name: String,
    pub size: u64,
    /// The extension in lower case, with its dot.
    pub extension: String,
}

/// What a scan found.
#[derive(Clone, Debug, PartialEq, Eq)]
pub struct ScanDirectoryResult {
    /// The files that can be processed, by name without regard to case.
    pub files: Vec<ScannedFile>,
    /// Their sizes together, in bytes.
    pub total_size: u64,
    /// The number of files that were passed over.
    pub skipped: usize,
}

/// A file as the walk through the directory found it.
#[derive(Debug)]
pub struct FoundFile {
    pub path: String,
    pub name: String,
    /// The extension as it stands in the name, without dot; `None` where
    /// the name has none.
    pub extension: Option<String>,
    pub size: u64,
}

/// `ScannedFile` with its texts as sequences of characters.
pub struct ScannedFileModel {
    pub path: Seq<char>,
    pub name: Seq<char>,
    pub size: u64,
    pub extension: Seq<char>,
}

/// `FoundFile` with its texts as sequences of characters.
pub struct FoundFileModel {
    pub path: Seq<char>,
    pub name: Seq<char>,
    pub extension: Option<Seq<char>>,
    pub size: u64,
}

/// `ScanDirectoryResult` with its files as models.
pub struct ScanSummaryModel {
    pub files: Seq<ScannedFileModel>,
    pub total_size: nat,
    pub skipped: nat,
}

impl View for ScannedFile {
    type V = ScannedFileModel;

    open spec fn view(&self) -> ScannedFileModel {
        ScannedFileModel {
            path: self.path@,
            name: self.name@,
            size: self.size,
            extension: self.extension@,
        }
    }
}

impl View for FoundFile {
    type V = FoundFileModel;

    open spec fn view(&self) -> FoundFileModel {
        FoundFileModel {
            path: self.path@,
            name: self.name@,
            extension: match self.extension {
                Some(text) => Some(text@),
                None => None,
            },
            size: self.size,
        }
    }
}

/// The models of a list of scanned files.
pub open spec fn files_of(files: Seq<ScannedFile>) -> Seq<ScannedFileModel> {
    Seq::new(files.len(), |i: int| files[i]@)
}

/// The models of a list of found files.
pub open spec fn found_of(found: Seq<FoundFile>) -> Seq<FoundFileModel> {
    Seq::new(found.len(), |i: int| found[i]@)
}

impl View for ScanDirectoryResult {
    type V = ScanSummaryModel;

    open spec fn view(&self) -> ScanSummaryModel {
        ScanSummaryModel {
            files: files_of(self.files@),
            total_size: self.total_size as nat,
            skipped: self.skipped as nat,
        }
    }
}

/// The scanned file that a found file makes, where its extension in
/// lower case is of the allow-list; `None` where the file is passed over.
pub open spec fn accepted(found: FoundFileModel) -> Option<ScannedFileModel> {
    match found.extension {
        Some(extension) => if allowed_extension(lowercase_of(extension)) {
            Some(
                ScannedFileModel {
                    path: found.path,
                    name: found.name,
                    size: found.size,
                    extension: seq!['.'] + lowercase_of(extension),
                },
            )
        } else {
            None
        },
        None => None,
    }
}

/// The files that can be processed, in the order in which they were
/// found.
pub open spec fn kept(found: Seq<FoundFileModel>) -> Seq<ScannedFileModel>
    decreases found.len(),
{
    if found.len() == 0 {
        Seq::empty()
    } else {
        match accepted(found.last()) {
            Some(file) => kept(found.drop_last()).push(file),
            None => kept(found.drop_last()),
        }
    }
}

/// The number of files that are passed over.
pub open spec fn passed_over(found: Seq<FoundFileModel>) -> nat
    decreases found.len(),
{
    if found.len() == 0 {
        0
    } else if accepted(found.last()) is None {
        passed_over(found.drop_last()) + 1
    } else {
        passed_over(found.drop_last())
    }
}

/// The sizes of the files together.
pub open spec fn total_size(files: Seq<ScannedFileModel>) -> nat
    decreases files.len(),
{
    if files.len() == 0 {
        0
    } else {
        total_size(files.drop_last()) + files.last().size as nat
    }
}

/// What a file is ordered by: its name in lower case.
pub open spec fn sort_key(file: ScannedFileModel) -> Seq<char> {
    lowercase_of(file.name)
}

/// `sorted` with `file` put behind the last file whose key does not
/// stand behind its own.
pub open spec fn inserted(sorted: Seq<ScannedFileModel>, file: ScannedFileModel) -> Seq<
    ScannedFileModel,
>
    decreases sorted.len(),
{
    if sorted.len() == 0 {
        seq![file]
    } else if text_le(sort_key(sorted.last()), sort_key(file)) {
        sorted.push(file)
    } else {
        inserted(sorted.drop_last(), file).push(sorted.last())
    }
}

/// The files in the order of their keys; files with the same key stay in
/// the order in which they came.
pub open spec fn sorted_by_name(files: Seq<ScannedFileModel>) -> Seq<ScannedFileModel>
    decreases files.len(),
{
    if files.len() == 0 {
        Seq::empty()
    } else {
        inserted(sorted_by_name(files.drop_last()), files.last())
    }
}

/// The keys of the files never fall from one file to the next.
pub open spec fn ordered(files: Seq<ScannedFileModel>) -> bool {
    forall|i: int, j: int|
        0 <= i <= j < files.len() ==> text_le(
            sort_key(#[trigger] files[i]),
            sort_key(#[trigger] files[j]),
        )
}

/// The summary of a scan.
pub open spec fn scan_summary(found: Seq<FoundFileModel>) -> ScanSummaryModel {
    ScanSummaryModel {
        files: sorted_by_name(kept(found)),
        total_size: total_size(kept(found)),
        skipped: passed_over(found),
    }
}

/// Putting a file in adds this one file and keeps the others.
pub proof fn lemma_inserted_members(sorted: Seq<ScannedFileModel>, file: ScannedFileModel)
    ensures
        inserted(sorted, file).len() == sorted.len() + 1,
        inserted(sorted, file).to_multiset() == sorted.to_multiset().insert(file),
        forall|i: int|
            0 <= i < inserted(sorted, file).len() ==> (#[trigger] inserted(sorted, file)[i]) == file
                || sorted.contains(inserted(sorted, file)[i]),
    decreases sorted.len(),
{
    broadcast use vstd::seq_lib::group_to_multiset_ensures;

    if sorted.len() == 0 {
        assert(seq![file] =~= sorted.push(file));
    } else if text_le(sort_key(sorted.last()), sort_key(file)) {
        assert forall|i: int| 0 <= i < sorted.push(file).len() implies (#[trigger] sorted.push(
            file,
        )[i]) == file || sorted.contains(sorted.push(file)[i]) by {
            if i < sorted.len() {
                assert(sorted[i] == sorted.push(file)[i]);
            }
        }
    } else {
        let front = sorted.drop_last();
        lemma_inserted_members(front, file);
        assert(sorted =~= front.push(sorted.last()));
        assert(inserted(sorted, file).to_multiset() =~= sorted.to_multiset().insert(file));
        assert forall|i: int| 0 <= i < inserted(sorted, file).len() implies (#[trigger] inserted(
            sorted,
            file,
        )[i]) == file || sorted.contains(inserted(sorted, file)[i]) by {
            if i < front.len() + 1 {
                let entry = inserted(front, file)[i];
                if entry != file {
                    let at = choose|at: int| 0 <= at < front.len() && front[at] == entry;
                    assert(sorted[at] == entry);
                }
            } else {
                assert(sorted[sorted.len() - 1] == sorted.last());
            }
        }
    }
}

/// Putting a file into ordered files leaves them ordered.
pub proof fn lemma_inserted_ordered(sorted: Seq<ScannedFileModel>, file: ScannedFileModel)
    requires
        ordered(sorted),
    ensures
        ordered(inserted(sorted, file)),
    decreases sorted.len(),
{
    let result = inserted(sorted, file);
    lemma_inserted_members(sorted, file);
    if sorted.len() == 0 {
        lemma_text_le_reflexive(sort_key(file));
    } else if text_le(sort_key(sorted.last()), sort_key(file)) {
        assert forall|i: int, j: int| 0 <= i <= j < result.len() implies text_le(
            sort_key(#[trigger] result[i]),
            sort_key(#[trigger] result[j]),
        ) by {
            if j < sorted.len() {
                assert(text_le(sort_key(sorted[i]), sort_key(sorted[j])));
            } else if i < sorted.len() {
                assert(text_le(sort_key(sorted[i]), sort_key(sorted[sorted.len() - 1])));
                lemma_text_le_transitive(
                    sort_key(sorted[i]),
                    sort_key(sorted.last()),
                    sort_key(file),
                );
            } else {
                lemma_text_le_reflexive(sort_key(file));
            }
        }
    } else {
        let front = sorted.drop_last();
        assert forall|i: int, j: int| 0 <= i <= j < front.len() implies text_le(
            sort_key(#[trigger] front[i]),
            sort_key(#[trigger] front[j]),
        ) by {
            assert(text_le(sort_key(sorted[i]), sort_key(sorted[j])));
        }
        lemma_inserted_ordered(front, file);
        lemma_inserted_members(front, file);
        let middle = inserted(front, file);
        assert forall|i: int, j: int| 0 <= i <= j < result.len() implies text_le(
            sort_key(#[trigger] result[i]),
            sort_key(#[trigger] result[j]),
        ) by {
            if j < middle.len() {
                assert(text_le(sort_key(middle[i]), sort_key(middle[j])));
            } else if i < middle.len() {
                if middle[i] == file {
                    lemma_text_le_total(sort_key(sorted.last()), sort_key(file));
                } else {
                    let at = choose|at: int| 0 <= at < front.len() && front[at] == middle[i];
                    assert(text_le(sort_key(sorted[at]), sort_key(sorted[sorted.len() - 1])));
                }
            } else {
                lemma_text_le_reflexive(sort_key(sorted.last()));
            }
        }
    }
}

/// Where `position` is the place behind the last file whose key does not
/// stand behind that of `file`, putting `file` in means inserting it
/// there.
pub proof fn lemma_inserted_at(
    sorted: Seq<ScannedFileModel>,
    file: ScannedFileModel,
    position: int,
)
    requires
        0 <= position <= sorted.len(),
        forall|j: int|
            position <= j < sorted.len() ==> !text_le(sort_key(#[trigger] sorted[j]), sort_key(file)),
        position > 0 ==> text_le(sort_key(sorted[position - 1]), sort_key(file)),
    ensures
        inserted(sorted, file) == sorted.insert(position, file),
    decreases sorted.len(),
{
    if sorted.len() == 0 {
        assert(seq![file] =~= sorted.insert(position, file));
    } else if position == sorted.len() {
        assert(sorted.push(file) =~= sorted.insert(position, file));
    } else {
        let front = sorted.drop_last();
        assert(!text_le(sort_key(sorted[sorted.len() - 1]), sort_key(file)));
        assert forall|j: int| position <= j < front.len() implies !text_le(
            sort_key(#[trigger] front[j]),
            sort_key(file),
        ) by {
            assert(front[j] == sorted[j]);
        }
        if position > 0 {
            assert(front[position - 1] == sorted[position - 1]);
        }
        lemma_inserted_at(front, file, position);
        assert(front.insert(position, file).push(sorted.last()) =~= sorted.insert(position, file));
    }
}

/// The files that stand in the summary are the files that can be
/// processed, each as often as it was found, and they stand in the order
/// of their names without regard to case.
pub proof fn lemma_sorted_by_name(files: Seq<ScannedFileModel>)
    ensures
        ordered(sorted_by_name(files)),
        sorted_by_name(files).len() == files.len(),
        sorted_by_name(files).to_multiset() == files.to_multiset(),
    decreases files.len(),
{
    broadcast use vstd::seq_lib::group_to_multiset_ensures;

    if files.len() > 0 {
        let front = files.drop_last();
        lemma_sorted_by_name(front);
        lemma_inserted_ordered(sorted_by_name(front), files.last());
        lemma_inserted_members(sorted_by_name(front), files.last());
        assert(files =~= front.push(files.last()));
    }
}

/// Files with the same name but for case stay in the order in which they
/// were found: for every key, the files with that key are the same list
/// before and after.
pub proof fn lemma_sort_is_stable(files: Seq<ScannedFileModel>, key: Seq<char>)
    ensures
        sorted_by_name(files).filter(|file: ScannedFileModel| sort_key(file) == key)
            == files.filter(|file: ScannedFileModel| sort_key(file) == key),
    decreases files.len(),
{
    reveal(Seq::filter);
    if files.len() > 0 {
        lemma_sort_is_stable(files.drop_last(), key);
        lemma_inserted_keeps_order(sorted_by_name(files.drop_last()), files.last(), key);
    }
}

proof fn lemma_inserted_keeps_order(
    sorted: Seq<ScannedFileModel>,
    file: ScannedFileModel,
    key: Seq<char>,
)
    ensures
        inserted(sorted, file).filter(|entry: ScannedFileModel| sort_key(entry) == key) == if sort_key(
            file,
        ) == key {
            sorted.filter(|entry: ScannedFileModel| sort_key(entry) == key).push(file)
        } else {
            sorted.filter(|entry: ScannedFileModel| sort_key(entry) == key)
        },
    decreases sorted.len(),
{
    reveal(Seq::filter);
    let same = |entry: ScannedFileModel| sort_key(entry) == key;
    if sorted.len() == 0 {
        assert(seq![file].drop_last() =~= sorted);
    } else if text_le(sort_key(sorted.last()), sort_key(file)) {
        assert(sorted.push(file).drop_last() =~= sorted);
    } else {
        let front = sorted.drop_last();
        lemma_inserted_keeps_order(front, file, key);
        assert(inserted(front, file).push(sorted.last()).drop_last() =~= inserted(front, file));
        if sort_key(file) == key && sort_key(sorted.last()) == key {
            lemma_text_le_reflexive(key);
        }
    }
}

/// What one more found file adds to the files kept, to their size and to
/// their order.
pub proof fn lemma_kept_step(found: Seq<FoundFileModel>)
    requires
        found.len() > 0,
    ensures
        match accepted(found.last()) {
            Some(file) => {
                &&& kept(found) == kept(found.drop_last()).push(file)
                &&& total_size(kept(found)) == total_size(kept(found.drop_last())) + file.size
                &&& sorted_by_name(kept(found)) == inserted(
                    sorted_by_name(kept(found.drop_last())),
                    file,
                )
            },
            None => kept(found) == kept(found.drop_last()),
        },
{
    match accepted(found.last()) {
        Some(file) => {
            let before = kept(found.drop_last());
            assert(before.push(file).drop_last() =~= before);
        },
        None => {},
    }
}

/// The files kept of a beginning of the list are together no larger than
/// the files kept of the whole list.
pub proof fn lemma_total_size_of_prefix(found: Seq<FoundFileModel>, length: int)
    requires
        0 <= length <= found.len(),
    ensures
        total_size(kept(found.take(length))) <= total_size(kept(found)),
    decreases found.len() - length,
{
    if length < found.len() {
        lemma_total_size_of_prefix(found, length + 1);
        assert(found.take(length + 1).drop_last() =~= found.take(length));
        lemma_kept_step(found.take(length + 1));
    } else {
        assert(found.take(length) =~= found);
    }
}

/// Judges one found file: the scanned file that it makes, or `None`
/// where it is passed over.
pub fn accept(found: &FoundFile) -> (file: Option<ScannedFile>)
    ensures
        match file {
            Some(scanned) => accepted(found@) == Some(scanned@),
            None => accepted(found@) is None,
        },
{
    match &found.extension {
        Some(extension) => {
            let lowered = lowercase(extension.as_str());
            match check_extension(Some(lowered.as_str())) {
                Ok(()) => {
                    let mut dotted = String::from_str(".");
                    proof {
                        reveal_strlit(".");
                        assert("."@ =~= seq!['.']);
                    }
                    dotted.append(lowered.as_str());
                    Some(
                        ScannedFile {
                            path: found.path.clone(),
                            name: found.name.clone(),
                            size: found.size,
                            extension: dotted,
                        },
                    )
                },
                Err(_) => None,
            }
        },
        None => None,
    }
}

/// Summarizes what a walk through a directory found; `None` where the
/// sizes of the files that can be processed do not fit together into a
/// `u64`.
pub fn summarize_scan(found: &Vec<FoundFile>) -> (summary: Option<ScanDirectoryResult>)
    ensures
        summary is Some <==> total_size(kept(found_of(found@))) <= u64::MAX,
        summary matches Some(made) ==> {
            &&& made@ == scan_summary(found_of(found@))
            &&& ordered(made@.files)
            &&& made@.files.to_multiset() == kept(found_of(found@)).to_multiset()
            &&& made@.files.len() + made@.skipped == found@.len()
        },
{
    let ghost all = found_of(found@);
    let mut files: Vec<ScannedFile> = Vec::new();
    let mut keys: Vec<Vec<char>> = Vec::new();
    let mut total: u64 = 0;
    let mut skipped: usize = 0;
    let mut i: usize = 0;
    assert(all.take(0) =~= Seq::<FoundFileModel>::empty());
    assert(files_of(files@) =~= Seq::<ScannedFileModel>::empty());
    while i < found.len()
        invariant
            i <= found.len(),
            all == found_of(found@),
            files_of(files@) == sorted_by_name(kept(all.take(i as int))),
            keys@.len() == files@.len(),
            forall|j: int| 0 <= j < keys@.len() ==> (#[trigger] keys@[j])@ == sort_key(files@[j]@),
            total == total_size(kept(all.take(i as int))),
            skipped == passed_over(all.take(i as int)),
            kept(all.take(i as int)).len() + skipped == i,
        decreases found.len() - i,
    {
        proof {
            assert(all.take(i + 1).drop_last() =~= all.take(i as int));
            assert(all.take(i + 1).last() == found@[i as int]@);
            lemma_total_size_of_prefix(all, i + 1);
            lemma_kept_step(all.take(i + 1));
        }
        match accept(&found[i]) {
            Some(file) => {
                let lowered = lowercase(file.name.as_str());
                let key = chars_of(lowered.as_str());
                let mut position: usize = files.len();
                while position > 0 && !precedes(&keys[position - 1], &key)
                    invariant
                        position <= files@.len(),
                        keys@.len() == files@.len(),
                        forall|j: int|
                            0 <= j < keys@.len() ==> (#[trigger] keys@[j])@ == sort_key(files@[j]@),
                        forall|j: int|
                            position <= j < files@.len() ==> !text_le(
                                sort_key(#[trigger] files@[j]@),
                                key@,
                            ),
                    decreases position,
                {
                    position -= 1;
                }
                proof {
                    let before = files_of(files@);
                    assert forall|j: int| position <= j < before.len() implies !text_le(
                        sort_key(#[trigger] before[j]),
                        sort_key(file@),
                    ) by {
                        assert(before[j] == files@[j]@);
                    }
                    if position > 0 {
                        assert(before[position - 1] == files@[position - 1]@);
                    }
                    lemma_inserted_at(before, file@, position as int);
                }
                let ghost before = files_of(files@);
                let ghost entry = file@;
                total = match total.checked_add(file.size) {
                    Some(sum) => sum,
                    None => {
                        return None;
                    },
                };
                files.insert(position, file);
                keys.insert(position, key);
                assert(files_of(files@) =~= before.insert(position as int, entry));
            },
            None => {
                skipped = skipped + 1;
            },
        }
        i += 1;
    }
    proof {
        assert(all.take(i as int) =~= all);
        lemma_sorted_by_name(kept(all));
    }
    Some(ScanDirectoryResult { files, total_size: total, skipped })
}

} // verus!
