//! The local receipt store: one JSON file per receipt, named by its receipt
//! id, beside an `index.json` that lists them in receipt-id order.
//!
//! The library decides file names, what the index must look like, whether an
//! index still matches the store, and what errors say in public. Reading and
//! writing the files is left to the caller, which hands the results in.
use vstd::prelude::*;

use crate::receipt_paths::{
    ReceiptStoreLabel, ReceiptStorePublicProjection, path_join, safe_receipt_store_projection,
    store_label,
};
use crate::sorting::{
    SortOrder, chars_lt, is_stable_sort, lemma_chars_lt_strict, stable_sort, stable_sorted, str_less, views,
};
use crate::text::{concat, concat3, contains, has_char, chars_of, str_eq};

verus! {

pub const RECEIPT_STORE_INDEX_SCHEMA: &'static str = "runx.receipt_store_index.v1";

pub const INDEX_FILE_NAME: &'static str = "index.json";

pub const RECEIPT_FILE_EXTENSION: &'static str = ".json";

/// A receipt store rooted at a directory.
#[derive(Clone, Debug)]
pub struct LocalReceiptStore {
    root: String,
}

impl View for LocalReceiptStore {
    type V = Seq<char>;

    /// The store's root directory.
    closed spec fn view(&self) -> Seq<char> {
        self.root@
    }
}

/// The index of a receipt store.
#[derive(Clone, Debug, PartialEq, Eq)]
pub struct ReceiptStoreIndex {
    pub schema: String,
    pub generated_at: String,
    pub entries: Vec<ReceiptStoreIndexEntry>,
}

/// One receipt of the index: its id, its file name and when it was created.
#[derive(Clone, Debug, PartialEq, Eq)]
pub struct ReceiptStoreIndexEntry {
    pub receipt_id: String,
    pub file_name: String,
    pub created_at: String,
}

impl View for ReceiptStoreIndexEntry {
    type V = (Seq<char>, Seq<char>, Seq<char>);

    open spec fn view(&self) -> (Seq<char>, Seq<char>, Seq<char>) {
        (self.receipt_id@, self.file_name@, self.created_at@)
    }
}

impl SortOrder for ReceiptStoreIndexEntry {
    /// Index entries are ordered by receipt id.
    open spec fn before(a: (Seq<char>, Seq<char>, Seq<char>), b: (Seq<char>, Seq<char>, Seq<char>)) -> bool {
        chars_lt(a.0, b.0)
    }

    proof fn lemma_strict_weak_order(
        a: (Seq<char>, Seq<char>, Seq<char>),
        b: (Seq<char>, Seq<char>, Seq<char>),
        c: (Seq<char>, Seq<char>, Seq<char>),
    ) {
        lemma_chars_lt_strict(a.0, b.0, c.0);
        lemma_chars_lt_strict(a.0, c.0, b.0);
        lemma_chars_lt_strict(b.0, a.0, c.0);
        crate::sorting::lemma_chars_lt_total(a.0, b.0);
        crate::sorting::lemma_chars_lt_total(b.0, c.0);
        crate::sorting::lemma_chars_lt_strict(c.0, b.0, a.0);
    }

    fn is_before(&self, other: &Self) -> (r: bool) {
        str_less(self.receipt_id.as_str(), other.receipt_id.as_str())
    }
}

/// Why the store refused an operation. Paths are the store's own paths, never
/// shown in public messages.
#[derive(Clone, Debug, PartialEq, Eq)]
pub enum ReceiptStoreError {
    MissingStore { path: String },
    StoreNotDirectory { path: String },
    StoreUnreadable { path: String, message: String },
    InvalidReceiptId { receipt_id: String },
    MissingReceipt { path: String },
    ReceiptUnreadable { path: String, message: String },
    MalformedJson { path: String, message: String },
    WrongSchema { path: String, schema: String },
    MalformedReceipt { path: String, message: String },
    IdFilenameMismatch { path: String, receipt_id: String, file_stem: String },
    ReceiptProofInvalid { path: String, receipt_id: String, message: String },
    ReceiptAlreadyExists { receipt_id: String },
    MalformedIndex { path: String, message: String },
    ReceiptIndexStale { path: String, message: String },
    UnsafePathProjection { reason: String },
}

/// What the public may read of an error: the store's label, never its path.
pub open spec fn public_message_spec(error: ReceiptStoreError, label: Seq<char>) -> Seq<char> {
    match error {
        ReceiptStoreError::MissingStore { .. } => "receipt store "@ + label + " is missing"@,
        ReceiptStoreError::StoreNotDirectory { .. } => "receipt store "@ + label
            + " is not a directory"@,
        ReceiptStoreError::StoreUnreadable { .. } => "receipt store "@ + label + " is unreadable"@,
        ReceiptStoreError::InvalidReceiptId { .. } => "receipt id is invalid for local store lookup"@,
        ReceiptStoreError::MissingReceipt { .. } => "receipt is missing in store "@ + label,
        ReceiptStoreError::ReceiptUnreadable { .. } => "receipt is unreadable in store "@ + label,
        ReceiptStoreError::MalformedJson { .. } => "receipt JSON is malformed in store "@ + label,
        ReceiptStoreError::WrongSchema { schema, .. } => "receipt has unsupported schema in store "@
            + label + ": "@ + schema@,
        ReceiptStoreError::MalformedReceipt { .. } => "receipt shape is invalid in store "@ + label,
        ReceiptStoreError::IdFilenameMismatch { .. } => "receipt id does not match file name in store "@
            + label,
        ReceiptStoreError::ReceiptProofInvalid { .. } => "receipt proof is invalid in store "@ + label,
        ReceiptStoreError::ReceiptAlreadyExists { .. } =>
            "receipt already exists with different content in store "@ + label,
        ReceiptStoreError::MalformedIndex { .. } => "receipt store index is malformed in store "@
            + label,
        ReceiptStoreError::ReceiptIndexStale { .. } => "receipt store index is stale in store "@
            + label,
        ReceiptStoreError::UnsafePathProjection { .. } =>
            "receipt store path cannot be projected safely"@,
    }
}

impl ReceiptStoreError {
    /// The message to show in public, naming the store by its label.
    pub fn public_message(&self, store_label: &ReceiptStoreLabel) -> (r: String)
        ensures
            r@ == public_message_spec(*self, store_label.0@),
    {
        let label = store_label.as_str();
        match self {
            ReceiptStoreError::MissingStore { .. } => concat3("receipt store ", label, " is missing"),
            ReceiptStoreError::StoreNotDirectory { .. } => concat3(
                "receipt store ",
                label,
                " is not a directory",
            ),
            ReceiptStoreError::StoreUnreadable { .. } => concat3(
                "receipt store ",
                label,
                " is unreadable",
            ),
            ReceiptStoreError::InvalidReceiptId { .. } => String::from_str(
                "receipt id is invalid for local store lookup",
            ),
            ReceiptStoreError::MissingReceipt { .. } => concat("receipt is missing in store ", label),
            ReceiptStoreError::ReceiptUnreadable { .. } => concat(
                "receipt is unreadable in store ",
                label,
            ),
            ReceiptStoreError::MalformedJson { .. } => concat(
                "receipt JSON is malformed in store ",
                label,
            ),
            ReceiptStoreError::WrongSchema { schema, .. } => {
                let head = concat3("receipt has unsupported schema in store ", label, ": ");
                concat(head.as_str(), schema.as_str())
            },
            ReceiptStoreError::MalformedReceipt { .. } => concat(
                "receipt shape is invalid in store ",
                label,
            ),
            ReceiptStoreError::IdFilenameMismatch { .. } => concat(
                "receipt id does not match file name in store ",
                label,
            ),
            ReceiptStoreError::ReceiptProofInvalid { .. } => concat(
                "receipt proof is invalid in store ",
                label,
            ),
            ReceiptStoreError::ReceiptAlreadyExists { .. } => concat(
                "receipt already exists with different content in store ",
                label,
            ),
            ReceiptStoreError::MalformedIndex { .. } => concat(
                "receipt store index is malformed in store ",
                label,
            ),
            ReceiptStoreError::ReceiptIndexStale { .. } => concat(
                "receipt store index is stale in store ",
                label,
            ),
            ReceiptStoreError::UnsafePathProjection { .. } => String::from_str(
                "receipt store path cannot be projected safely",
            ),
        }
    }
}

// ---------------------------------------------------------------------------
// Receipt file names
// ---------------------------------------------------------------------------

/// A receipt id can name a file of the store: it is not empty, not `.` or
/// `..`, and holds no path separator.
pub open spec fn valid_receipt_id(id: Seq<char>) -> bool {
    id.len() > 0 && id != "."@ && id != ".."@ && !id.contains('/') && !id.contains('\\')
}

/// The file that holds the receipt `id`, or the refusal of an id that cannot
/// name one.
pub fn receipt_file_name(receipt_id: &str) -> (r: Result<String, ReceiptStoreError>)
    ensures
        valid_receipt_id(receipt_id@) ==> (r matches Ok(name) && name@ == receipt_id@ + ".json"@),
        !valid_receipt_id(receipt_id@) ==> (r matches Err(ReceiptStoreError::InvalidReceiptId {
            receipt_id: id,
        }) && id@ == receipt_id@),
{
    let chars = chars_of(receipt_id);
    if chars.len() == 0 || str_eq(receipt_id, ".") || str_eq(receipt_id, "..") || has_char(
        &chars,
        '/',
    ) || has_char(&chars, '\\') {
        return Err(ReceiptStoreError::InvalidReceiptId { receipt_id: String::from_str(receipt_id) });
    }
    Ok(concat(receipt_id, RECEIPT_FILE_EXTENSION))
}

/// The receipt id that a directory entry's file name holds: a `.json` file
/// with a non-empty stem, other than the index.
pub open spec fn receipt_file_stem_spec(file_name: Seq<char>) -> Option<Seq<char>> {
    if file_name.len() > 5 && file_name.subrange(file_name.len() - 5, file_name.len() as int)
        == ".json"@ && file_name != "index.json"@ {
        Some(file_name.subrange(0, file_name.len() - 5))
    } else {
        None
    }
}

/// The receipt id that a directory entry's file name holds, if it holds one.
pub fn receipt_file_stem(file_name: &str) -> (r: Option<String>)
    ensures
        r matches Some(stem) ==> receipt_file_stem_spec(file_name@) == Some(stem@),
        r is None ==> receipt_file_stem_spec(file_name@) is None,
{
    let chars = chars_of(file_name);
    let n = chars.len();
    if n <= 5 {
        return None;
    }
    let tail = crate::text::slice_of(&chars, n - 5, n);
    let ext = chars_of(RECEIPT_FILE_EXTENSION);
    if !crate::text::chars_eq(&tail, &ext) || str_eq(file_name, INDEX_FILE_NAME) {
        return None;
    }
    Some(crate::text::string_of(&crate::text::slice_of(&chars, 0, n - 5)))
}

// ---------------------------------------------------------------------------
// The index
// ---------------------------------------------------------------------------

/// The ids of `entries`, in order.
pub open spec fn entry_ids(entries: Seq<ReceiptStoreIndexEntry>) -> Seq<Seq<char>> {
    entries.map_values(|e: ReceiptStoreIndexEntry| e.receipt_id@)
}

/// An index that a new entry may be appended to: each file name is the one
/// its receipt id gives, and the ids are sorted and distinct.
pub open spec fn index_shape_ok(entries: Seq<ReceiptStoreIndexEntry>) -> bool {
    &&& forall|i: int| 0 <= i < entries.len() ==> valid_receipt_id(#[trigger] entries[i].receipt_id@)
        && entries[i].file_name@ == entries[i].receipt_id@ + ".json"@
    &&& forall|i: int| 0 < i < entries.len() ==> chars_lt(
        (#[trigger] entries[i - 1]).receipt_id@,
        entries[i].receipt_id@,
    )
}

/// The first entry of `entries` that breaks the shape, and what it breaks:
/// `true` for its file name, `false` for the order of ids.
pub open spec fn first_shape_fault(entries: Seq<ReceiptStoreIndexEntry>, i: int) -> Option<
    (int, bool),
>
    decreases entries.len() - i,
{
    if i < 0 || i >= entries.len() {
        None
    } else if !valid_receipt_id(entries[i].receipt_id@) {
        Some((i, true))
    } else if entries[i].file_name@ != entries[i].receipt_id@ + ".json"@ {
        Some((i, true))
    } else if i > 0 && !chars_lt(entries[i - 1].receipt_id@, entries[i].receipt_id@) {
        Some((i, false))
    } else {
        first_shape_fault(entries, i + 1)
    }
}

proof fn lemma_first_shape_fault(entries: Seq<ReceiptStoreIndexEntry>, i: int)
    requires
        0 <= i <= entries.len(),
    ensures
        first_shape_fault(entries, i) is None <==> (forall|k: int| i <= k < entries.len() ==> (
        valid_receipt_id(#[trigger] entries[k].receipt_id@) && entries[k].file_name@
            == entries[k].receipt_id@ + ".json"@ && (k > 0 ==> chars_lt(
            entries[k - 1].receipt_id@,
            entries[k].receipt_id@,
        )))),
    decreases entries.len() - i,
{
    if i < entries.len() {
        lemma_first_shape_fault(entries, i + 1);
    }
}

/// The message of a stale index whose file names do not fit its ids.
pub open spec fn file_name_mismatch_message() -> Seq<char> {
    "index file name does not match receipt id"@
}

/// The message of a stale index whose ids are out of order or repeated.
pub open spec fn unsorted_ids_message() -> Seq<char> {
    "index receipt ids must be sorted and unique"@
}

/// `e` refuses the first entry of `entries` that breaks the shape.
pub open spec fn is_shape_refusal(entries: Seq<ReceiptStoreIndexEntry>, e: ReceiptStoreError) -> bool {
    match first_shape_fault(entries, 0) {
        Some((k, true)) => if valid_receipt_id(entries[k].receipt_id@) {
            e matches ReceiptStoreError::ReceiptIndexStale { path, message } && path@
                == INDEX_FILE_NAME@ && message@ == file_name_mismatch_message()
        } else {
            e matches ReceiptStoreError::InvalidReceiptId { receipt_id } && receipt_id@
                == entries[k].receipt_id@
        },
        Some((k, false)) => e matches ReceiptStoreError::ReceiptIndexStale { path, message }
            && path@ == INDEX_FILE_NAME@ && message@ == unsorted_ids_message(),
        None => false,
    }
}

/// Checks that an index has the shape that appending keeps: the first fault
/// found, entry by entry, is refused.
pub fn ensure_index_shape_for_append(index: &ReceiptStoreIndex) -> (r: Result<(), ReceiptStoreError>)
    ensures
        r is Ok <==> index_shape_ok(index.entries@),
        r matches Err(e) ==> is_shape_refusal(index.entries@, e),
{
    proof {
        lemma_first_shape_fault(index.entries@, 0);
    }
    let mut i: usize = 0;
    while i < index.entries.len()
        invariant
            i <= index.entries.len(),
            first_shape_fault(index.entries@, 0) == first_shape_fault(index.entries@, i as int),
            forall|k: int| 0 <= k < i ==> (valid_receipt_id(
                #[trigger] index.entries@[k].receipt_id@,
            ) && index.entries@[k].file_name@ == index.entries@[k].receipt_id@ + ".json"@ && (k
                > 0 ==> chars_lt(index.entries@[k - 1].receipt_id@, index.entries@[k].receipt_id@))),
        decreases index.entries.len() - i,
    {
        let entry = &index.entries[i];
        let expected = match receipt_file_name(entry.receipt_id.as_str()) {
            Ok(name) => name,
            Err(e) => return Err(e),
        };
        if !str_eq(entry.file_name.as_str(), expected.as_str()) {
            return Err(
                ReceiptStoreError::ReceiptIndexStale {
                    path: String::from_str(INDEX_FILE_NAME),
                    message: String::from_str("index file name does not match receipt id"),
                },
            );
        }
        if i > 0 && !str_less(
            index.entries[i - 1].receipt_id.as_str(),
            entry.receipt_id.as_str(),
        ) {
            return Err(
                ReceiptStoreError::ReceiptIndexStale {
                    path: String::from_str(INDEX_FILE_NAME),
                    message: String::from_str("index receipt ids must be sorted and unique"),
                },
            );
        }
        i += 1;
    }
    proof {
        assert forall|k: int| 0 < k < index.entries@.len() implies chars_lt(
            (#[trigger] index.entries@[k - 1]).receipt_id@,
            index.entries@[k].receipt_id@,
        ) by {
            assert(k > 0);
        }
    }
    Ok(())
}

// ---------------------------------------------------------------------------
// The store
// ---------------------------------------------------------------------------

/// The index entry of a listed receipt `(id, created_at)`.
pub open spec fn listed_entry(listed: (String, String)) -> (Seq<char>, Seq<char>, Seq<char>) {
    (listed.0@, listed.0@ + ".json"@, listed.1@)
}

/// The index entries of the receipts listed, in the order listed.
pub open spec fn listed_entries(listing: Seq<(String, String)>) -> Seq<
    (Seq<char>, Seq<char>, Seq<char>),
> {
    listing.map_values(|listed: (String, String)| listed_entry(listed))
}

/// The index entries of the receipts listed, in receipt-id order; receipts
/// of one id keep the order listed.
pub open spec fn index_entries_by_id(listing: Seq<(String, String)>) -> Seq<
    (Seq<char>, Seq<char>, Seq<char>),
> {
    stable_sorted::<ReceiptStoreIndexEntry>(listed_entries(listing))
}

/// The message of an index that names other receipts than the store holds.
pub open spec fn index_mismatch_message() -> Seq<char> {
    "index entries do not match receipt JSON files"@
}

/// What a store makes of the index it read, given the receipts it lists.
pub open spec fn loaded_index_spec(
    root: Seq<char>,
    stored: Option<ReceiptStoreIndex>,
    listing: Seq<(String, String)>,
    generated_at: Seq<char>,
) -> Result<(Seq<char>, Seq<char>, Seq<(Seq<char>, Seq<char>, Seq<char>)>), ReceiptStoreError> {
    match stored {
        None => Ok((RECEIPT_STORE_INDEX_SCHEMA@, generated_at, index_entries_by_id(listing))),
        Some(index) => if index.schema@ != RECEIPT_STORE_INDEX_SCHEMA@ {
            Err(
                ReceiptStoreError::MalformedIndex {
                    path: arbitrary(),
                    message: arbitrary(),
                },
            )
        } else if views(index.entries@) != index_entries_by_id(listing) {
            Err(ReceiptStoreError::ReceiptIndexStale { path: arbitrary(), message: arbitrary() })
        } else {
            Ok((index.schema@, index.generated_at@, views(index.entries@)))
        },
    }
}

/// A rebuilt index loads back as itself: an index of this store's schema
/// whose entries are those of the receipts listed, in id order, is the index
/// that loading it with the same listing gives.
pub proof fn lemma_rebuilt_index_loads(
    root: Seq<char>,
    index: ReceiptStoreIndex,
    listing: Seq<(String, String)>,
    generated_at: Seq<char>,
)
    requires
        index.schema@ == RECEIPT_STORE_INDEX_SCHEMA@,
        views(index.entries@) == index_entries_by_id(listing),
    ensures
        loaded_index_spec(root, Some(index), listing, generated_at) == Ok::<
            (Seq<char>, Seq<char>, Seq<(Seq<char>, Seq<char>, Seq<char>)>),
            ReceiptStoreError,
        >((index.schema@, index.generated_at@, views(index.entries@))),
{
}

/// What the store decides about writing a receipt whose file may exist.
#[derive(Clone, Copy, Debug, PartialEq, Eq, Structural)]
pub enum ReceiptWriteAction {
    /// The same receipt is stored already: nothing is written.
    AlreadyStored,
    /// The receipt's file is new: write it and index it.
    WriteNew,
}

impl LocalReceiptStore {
    /// A store rooted at `root`.
    pub fn new(root: &str) -> (s: Self)
        ensures
            s@ == root@,
    {
        LocalReceiptStore { root: String::from_str(root) }
    }

    /// The store's root directory.
    pub fn root(&self) -> (r: &str)
        ensures
            r@ == self@,
    {
        self.root.as_str()
    }

    /// The store's public face: a label that holds no absolute path.
    pub fn public_projection(&self, workspace_base: &str, project_runx_dir: &str) -> (r:
        ReceiptStorePublicProjection)
        ensures
            r.label_view() == store_label(self@, workspace_base@, project_runx_dir@),
    {
        safe_receipt_store_projection(self.root.as_str(), workspace_base, project_runx_dir)
    }

    /// The path of the store's index file.
    pub fn index_path(&self) -> (r: String)
        ensures
            r@ == path_join(self@, INDEX_FILE_NAME@),
    {
        crate::receipt_paths::join_path(self.root.as_str(), INDEX_FILE_NAME)
    }

    /// The index of the receipts listed as `(id, created_at)`, stamped with
    /// `generated_at`: one entry per receipt, sorted by receipt id, so that
    /// where the ids listed differ (as file names in one directory do) the
    /// ids ascend strictly.
    pub fn rebuild_index(&self, listing: &Vec<(String, String)>, generated_at: String) -> (r:
        ReceiptStoreIndex)
        ensures
            r.schema@ == RECEIPT_STORE_INDEX_SCHEMA@,
            r.generated_at@ == generated_at@,
            views(r.entries@) == index_entries_by_id(listing@),
            is_stable_sort::<ReceiptStoreIndexEntry>(listed_entries(listing@), views(r.entries@)),
            (forall|a: int, b: int|
                0 <= a < b < listing@.len() ==> listing@[a].0@ != listing@[b].0@) ==> forall|
                i: int,
                j: int,
            | 0 <= i < j < r.entries@.len() ==> chars_lt(
                (#[trigger] r.entries@[i]).receipt_id@,
                (#[trigger] r.entries@[j]).receipt_id@,
            ),
    {
        let mut entries: Vec<ReceiptStoreIndexEntry> = Vec::new();
        let mut i: usize = 0;
        while i < listing.len()
            invariant
                i <= listing.len(),
                views(entries@) == listed_entries(listing@).take(i as int),
            decreases listing.len() - i,
        {
            let (id, created_at) = &listing[i];
            let entry = ReceiptStoreIndexEntry {
                receipt_id: id.clone(),
                file_name: concat(id.as_str(), RECEIPT_FILE_EXTENSION),
                created_at: created_at.clone(),
            };
            let ghost before = entries@;
            entries.push(entry);
            proof {
                assert(views(entries@) =~= views(before).push(entry@));
                assert(listed_entries(listing@).take(i + 1) =~= listed_entries(listing@).take(
                    i as int,
                ).push(listed_entry(listing@[i as int])));
            }
            i += 1;
        }
        assert(listed_entries(listing@).take(listing.len() as int) =~= listed_entries(listing@));
        let sorted = stable_sort(entries);
        proof {
            let inp = listed_entries(listing@);
            let out = views(sorted@);
            if forall|a: int, b: int|
                0 <= a < b < listing@.len() ==> listing@[a].0@ != listing@[b].0@ {
                let perm = choose|perm: Seq<int>|
                    crate::sorting::stable_permutation::<ReceiptStoreIndexEntry>(inp, out, perm);
                assert forall|i: int, j: int| 0 <= i < j < sorted@.len() implies chars_lt(
                    (#[trigger] sorted@[i]).receipt_id@,
                    (#[trigger] sorted@[j]).receipt_id@,
                ) by {
                    assert(out[i] == sorted@[i]@);
                    assert(out[j] == sorted@[j]@);
                    assert(perm[i] != perm[j]);
                    assert(out[i] == inp[perm[i]]);
                    assert(out[j] == inp[perm[j]]);
                    assert(inp[perm[i]].0 == listing@[perm[i]].0@);
                    assert(inp[perm[j]].0 == listing@[perm[j]].0@);
                    if perm[i] < perm[j] {
                        assert(listing@[perm[i]].0@ != listing@[perm[j]].0@);
                    } else {
                        assert(listing@[perm[j]].0@ != listing@[perm[i]].0@);
                    }
                    crate::sorting::lemma_chars_lt_total(
                        sorted@[i].receipt_id@,
                        sorted@[j].receipt_id@,
                    );
                }
            }
        }
        ReceiptStoreIndex {
            schema: String::from_str(RECEIPT_STORE_INDEX_SCHEMA),
            generated_at,
            entries: sorted,
        }
    }

    /// The index to use: the stored one where it has this store's schema and
    /// lists exactly the receipts listed; a rebuilt one where none was stored.
    pub fn load_index(
        &self,
        stored: Option<ReceiptStoreIndex>,
        listing: &Vec<(String, String)>,
        generated_at: String,
    ) -> (r: Result<ReceiptStoreIndex, ReceiptStoreError>)
        ensures
            match (r, loaded_index_spec(self@, stored, listing@, generated_at@)) {
                (Ok(index), Ok((schema, stamp, entries))) => index.schema@ == schema
                    && index.generated_at@ == stamp && views(index.entries@) == entries,
                (Err(ReceiptStoreError::MalformedIndex { path, message }), Err(
                    ReceiptStoreError::MalformedIndex { .. },
                )) => path@ == path_join(self@, INDEX_FILE_NAME@) && message@
                    == "unsupported index schema "@ + stored->0.schema@,
                (Err(ReceiptStoreError::ReceiptIndexStale { path, message }), Err(
                    ReceiptStoreError::ReceiptIndexStale { .. },
                )) => path@ == path_join(self@, INDEX_FILE_NAME@) && message@
                    == index_mismatch_message(),
                _ => false,
            },
    {
        match stored {
            None => Ok(self.rebuild_index(listing, generated_at)),
            Some(index) => {
                if !str_eq(index.schema.as_str(), RECEIPT_STORE_INDEX_SCHEMA) {
                    return Err(
                        ReceiptStoreError::MalformedIndex {
                            path: self.index_path(),
                            message: concat("unsupported index schema ", index.schema.as_str()),
                        },
                    );
                }
                let rebuilt = self.rebuild_index(listing, String::new());
                if !entries_equal(&rebuilt.entries, &index.entries) {
                    return Err(
                        ReceiptStoreError::ReceiptIndexStale {
                            path: self.index_path(),
                            message: String::from_str(
                                "index entries do not match receipt JSON files",
                            ),
                        },
                    );
                }
                Ok(index)
            },
        }
    }
}

/// Two lists of index entries hold the same entries in the same order.
fn entries_equal(a: &Vec<ReceiptStoreIndexEntry>, b: &Vec<ReceiptStoreIndexEntry>) -> (r: bool)
    ensures
        r == (views(a@) == views(b@)),
{
    if a.len() != b.len() {
        assert(views(a@).len() != views(b@).len());
        return false;
    }
    let mut i: usize = 0;
    while i < a.len()
        invariant
            a.len() == b.len(),
            i <= a.len(),
            forall|k: int| 0 <= k < i ==> (#[trigger] a@[k])@ == b@[k]@,
        decreases a.len() - i,
    {
        if !str_eq(a[i].receipt_id.as_str(), b[i].receipt_id.as_str()) || !str_eq(
            a[i].file_name.as_str(),
            b[i].file_name.as_str(),
        ) || !str_eq(a[i].created_at.as_str(), b[i].created_at.as_str()) {
            assert(views(a@)[i as int] != views(b@)[i as int]);
            return false;
        }
        i += 1;
    }
    assert(views(a@) =~= views(b@));
    true
}

/// What writing a receipt does where its file may exist already: the same
/// bytes are stored already; other bytes are refused.
pub fn receipt_write_action(existing: Option<&Vec<u8>>, contents: &Vec<u8>, receipt_id: &str) -> (r:
    Result<ReceiptWriteAction, ReceiptStoreError>)
    ensures
        match existing {
            None => r == Ok::<ReceiptWriteAction, ReceiptStoreError>(ReceiptWriteAction::WriteNew),
            Some(bytes) => if bytes@ == contents@ {
                r == Ok::<ReceiptWriteAction, ReceiptStoreError>(ReceiptWriteAction::AlreadyStored)
            } else {
                r matches Err(ReceiptStoreError::ReceiptAlreadyExists { receipt_id: id }) && id@
                    == receipt_id@
            },
        },
{
    match existing {
        None => Ok(ReceiptWriteAction::WriteNew),
        Some(bytes) => {
            if bytes_equal(bytes, contents) {
                Ok(ReceiptWriteAction::AlreadyStored)
            } else {
                Err(ReceiptStoreError::ReceiptAlreadyExists { receipt_id: String::from_str(receipt_id) })
            }
        },
    }
}

/// Two byte strings are equal.
pub fn bytes_equal(a: &Vec<u8>, b: &Vec<u8>) -> (r: bool)
    ensures
        r == (a@ == b@),
{
    if a.len() != b.len() {
        return false;
    }
    let mut i: usize = 0;
    while i < a.len()
        invariant
            a.len() == b.len(),
            i <= a.len(),
            forall|k: int| 0 <= k < i ==> a@[k] == b@[k],
        decreases a.len() - i,
    {
        if a[i] != b[i] {
            return false;
        }
        i += 1;
    }
    assert(a@ =~= b@);
    true
}

/// What a receipt file must hold: the receipt schema, and the id its file is
/// named by.
pub fn check_receipt_identity(
    path: &str,
    schema: Option<&str>,
    expected_schema: &str,
    receipt_id: &str,
    expected_id: &str,
) -> (r: Result<(), ReceiptStoreError>)
    ensures
        match schema {
            Some(s) if s@ == expected_schema@ => if receipt_id@ == expected_id@ {
                r is Ok
            } else {
                r matches Err(ReceiptStoreError::IdFilenameMismatch { path: p, receipt_id: id, file_stem })
                    && p@ == path@ && id@ == receipt_id@ && file_stem@ == expected_id@
            },
            _ => r matches Err(ReceiptStoreError::WrongSchema { path: p, schema: found }) && p@
                == path@ && found@ == match schema {
                Some(s) => s@,
                None => "<missing>"@,
            },
        },
{
    let found: &str = match schema {
        Some(s) => s,
        None => "<missing>",
    };
    if schema.is_none() || !str_eq(found, expected_schema) {
        return Err(
            ReceiptStoreError::WrongSchema {
                path: String::from_str(path),
                schema: String::from_str(found),
            },
        );
    }
    if !str_eq(receipt_id, expected_id) {
        return Err(
            ReceiptStoreError::IdFilenameMismatch {
                path: String::from_str(path),
                receipt_id: String::from_str(receipt_id),
                file_stem: String::from_str(expected_id),
            },
        );
    }
    Ok(())
}

/// The index already lists the receipt `id`.
pub open spec fn index_lists(entries: Seq<ReceiptStoreIndexEntry>, id: Seq<char>) -> bool {
    exists|i: int| 0 <= i < entries.len() && (#[trigger] entries[i]).receipt_id@ == id
}

/// `n + 1`, saturating at `usize::MAX`.
pub open spec fn saturating_succ(n: nat) -> int {
    if n >= usize::MAX {
        usize::MAX as int
    } else {
        (n + 1) as int
    }
}


/// Ids of a well-shaped index increase along it.
proof fn lemma_index_ids_increase(entries: Seq<ReceiptStoreIndexEntry>, a: int, b: int)
    requires
        index_shape_ok(entries),
        0 <= a < b < entries.len(),
    ensures
        chars_lt(entries[a].receipt_id@, entries[b].receipt_id@),
    decreases b - a,
{
    assert(chars_lt(entries[b - 1].receipt_id@, entries[b].receipt_id@));
    if a + 1 < b {
        lemma_index_ids_increase(entries, a, b - 1);
        lemma_chars_lt_strict(
            entries[a].receipt_id@,
            entries[b - 1].receipt_id@,
            entries[b].receipt_id@,
        );
    }
}

/// Appending a receipt to a well-shaped index gives a well-shaped index:
/// every entry names a valid receipt id and its file, and ids increase
/// strictly along it.
pub proof fn lemma_append_keeps_index_shape(
    entries: Seq<ReceiptStoreIndexEntry>,
    receipt_id: Seq<char>,
    created_at: Seq<char>,
    next: Seq<ReceiptStoreIndexEntry>,
)
    requires
        index_shape_ok(entries),
        !index_lists(entries, receipt_id),
        valid_receipt_id(receipt_id),
        is_stable_sort::<ReceiptStoreIndexEntry>(
            views(entries).push((receipt_id, receipt_id + ".json"@, created_at)),
            views(next),
        ),
    ensures
        index_shape_ok(next),
{
    let inp = views(entries).push((receipt_id, receipt_id + ".json"@, created_at));
    let out = views(next);
    let perm = choose|perm: Seq<int>|
        crate::sorting::stable_permutation::<ReceiptStoreIndexEntry>(inp, out, perm);
    assert forall|k: int| 0 <= k < inp.len() implies valid_receipt_id((#[trigger] inp[k]).0)
        && inp[k].1 == inp[k].0 + ".json"@ by {
        if k < entries.len() {
            assert(inp[k] == entries[k]@);
        }
    }
    assert forall|a: int, b: int| 0 <= a < inp.len() && 0 <= b < inp.len() && a != b implies (
    #[trigger] inp[a]).0 != (#[trigger] inp[b]).0 by {
        if a < entries.len() && b < entries.len() {
            assert(inp[a] == entries[a]@);
            assert(inp[b] == entries[b]@);
            if a < b {
                lemma_index_ids_increase(entries, a, b);
            } else {
                lemma_index_ids_increase(entries, b, a);
            }
            lemma_chars_lt_strict(inp[a].0, inp[b].0, inp[a].0);
        } else if a < entries.len() {
            assert(inp[a] == entries[a]@);
            assert(entries[a].receipt_id@ != receipt_id);
        } else {
            assert(inp[b] == entries[b]@);
            assert(entries[b].receipt_id@ != receipt_id);
        }
    }
    assert forall|i: int| 0 <= i < next.len() implies valid_receipt_id(
        (#[trigger] next[i]).receipt_id@,
    ) && next[i].file_name@ == next[i].receipt_id@ + ".json"@ by {
        assert(out[i] == next[i]@);
        assert(out[i] == inp[perm[i]]);
    }
    assert forall|i: int| 0 < i < next.len() implies chars_lt(
        (#[trigger] next[i - 1]).receipt_id@,
        next[i].receipt_id@,
    ) by {
        assert(out[i - 1] == next[i - 1]@);
        assert(out[i] == next[i]@);
        assert(!chars_lt(out[i].0, out[i - 1].0));
        assert(out[i - 1] == inp[perm[i - 1]]);
        assert(out[i] == inp[perm[i]]);
        assert(perm[i - 1] != perm[i]);
        crate::sorting::lemma_chars_lt_total(out[i - 1].0, out[i].0);
    }
}

impl LocalReceiptStore {
    /// The index after appending the receipt `receipt_id`, created at
    /// `created_at`, to `index`, where the store now holds
    /// `receipt_file_count` receipt files: the shape of `index` is checked
    /// first, then that it does not list the receipt yet, then that it lists
    /// every other file, then the receipt id; the new entry takes its place in
    /// receipt-id order and the index is stamped `generated_at`.
    pub fn append_index_entry(
        &self,
        index: ReceiptStoreIndex,
        receipt_id: &str,
        created_at: &str,
        receipt_file_count: usize,
        generated_at: String,
    ) -> (r: Result<ReceiptStoreIndex, ReceiptStoreError>)
        ensures
            !index_shape_ok(index.entries@) ==> (r matches Err(e) && is_shape_refusal(
                index.entries@,
                e,
            )),
            index_shape_ok(index.entries@) && index_lists(index.entries@, receipt_id@) ==> (
            r matches Err(ReceiptStoreError::ReceiptIndexStale { path, message }) && path@
                == path_join(self@, INDEX_FILE_NAME@) && message@
                == "index already contains receipt id"@),
            index_shape_ok(index.entries@) && !index_lists(index.entries@, receipt_id@)
                && receipt_file_count != saturating_succ(index.entries@.len()) ==> (
            r matches Err(ReceiptStoreError::ReceiptIndexStale { path, message }) && path@
                == path_join(self@, INDEX_FILE_NAME@) && message@
                == "index entry count does not match receipt JSON files"@),
            index_shape_ok(index.entries@) && !index_lists(index.entries@, receipt_id@)
                && receipt_file_count == saturating_succ(index.entries@.len()) ==> (if valid_receipt_id(
                receipt_id@,
            ) {
                r matches Ok(next) && next.schema@ == index.schema@ && next.generated_at@
                    == generated_at@ && is_stable_sort::<ReceiptStoreIndexEntry>(
                    views(index.entries@).push(
                        (receipt_id@, receipt_id@ + ".json"@, created_at@),
                    ),
                    views(next.entries@),
                )
            } else {
                r matches Err(ReceiptStoreError::InvalidReceiptId { receipt_id: id }) && id@
                    == receipt_id@
            }),
    {
        match ensure_index_shape_for_append(&index) {
            Ok(()) => {},
            Err(e) => return Err(e),
        }
        let mut i: usize = 0;
        while i < index.entries.len()
            invariant
                i <= index.entries.len(),
                index_shape_ok(index.entries@),
                forall|k: int| 0 <= k < i ==> (#[trigger] index.entries@[k]).receipt_id@ != receipt_id@,
            decreases index.entries.len() - i,
        {
            if str_eq(index.entries[i].receipt_id.as_str(), receipt_id) {
                assert(index.entries@[i as int].receipt_id@ == receipt_id@);
                return Err(
                    ReceiptStoreError::ReceiptIndexStale {
                        path: self.index_path(),
                        message: String::from_str("index already contains receipt id"),
                    },
                );
            }
            i += 1;
        }
        let expected_count: usize = index.entries.len().saturating_add(1);
        if receipt_file_count != expected_count {
            return Err(
                ReceiptStoreError::ReceiptIndexStale {
                    path: self.index_path(),
                    message: String::from_str(
                        "index entry count does not match receipt JSON files",
                    ),
                },
            );
        }
        let file_name = match receipt_file_name(receipt_id) {
            Ok(name) => name,
            Err(e) => return Err(e),
        };
        let ReceiptStoreIndex { schema, generated_at: _, entries } = index;
        let mut entries = entries;
        let ghost before = entries@;
        let entry = ReceiptStoreIndexEntry {
            receipt_id: String::from_str(receipt_id),
            file_name,
            created_at: String::from_str(created_at),
        };
        entries.push(entry);
        assert(views(entries@) =~= views(before).push(
            (receipt_id@, receipt_id@ + ".json"@, created_at@),
        ));
        let sorted = stable_sort(entries);
        Ok(ReceiptStoreIndex { schema, generated_at, entries: sorted })
    }
}

} // verus!
