//! Mutations of a table, and whether they make sense on their own.

use std::collections::HashSet;

use vstd::hash_set::StringHashSet;
use vstd::prelude::*;
use vstd::string::*;

use super::error::{CatalogError, ErrorView, Result};
use super::models::{ColumnSpecView, PropertyKey, SchemaSpec, TableIdent, TableProperties, TxnId};
use super::schema::{clone_json, json_option};
use crate::ids::{hyphenated, Uuid};
use crate::json::{json_model, value_is_object, JsonModel, JsonObject};
use crate::storage::error::{storage_error_text, StorageErrorView};
use crate::storage::file_format::{
    options_verdict, validate_format_options, validate_format_options_checked, OptionsVerdict,
};
use crate::storage::{format_name, Format};
use crate::text::{blank, is_blank, joined};

verus! {

broadcast use vstd::std_specs::hash::group_hash_axioms;

/// File metadata supplied by mutation operations.
#[derive(Debug)]
pub struct FileSpec {
    /// Optional file UUID (generated if not provided).
    pub file_uuid: Option<Uuid>,
    /// File format.
    pub file_format: Format,
    /// File path.
    pub file_path: String,
    /// Number of records in the file.
    pub record_count: i64,
    /// File size in bytes.
    pub file_size_bytes: i64,
    /// Optional partition values.
    pub partition_values: Option<serde_json::Value>,
    /// Optional format-specific options.
    pub format_options: Option<serde_json::Value>,
}

/// What a file specification holds.
#[verifier::ext_equal]
pub struct FileSpecView {
    /// File UUID.
    pub file_uuid: Option<Uuid>,
    /// File format.
    pub file_format: Format,
    /// File path.
    pub file_path: Seq<char>,
    /// Number of records in the file.
    pub record_count: i64,
    /// File size in bytes.
    pub file_size_bytes: i64,
    /// Partition values.
    pub partition_values: Option<JsonModel>,
    /// Format-specific options.
    pub format_options: Option<JsonModel>,
}

impl View for FileSpec {
    type V = FileSpecView;

    open spec fn view(&self) -> FileSpecView {
        FileSpecView {
            file_uuid: self.file_uuid,
            file_format: self.file_format,
            file_path: self.file_path@,
            record_count: self.record_count,
            file_size_bytes: self.file_size_bytes,
            partition_values: json_option(self.partition_values),
            format_options: json_option(self.format_options),
        }
    }
}

impl Clone for FileSpec {
    fn clone(&self) -> (r: Self)
        ensures
            r@ == self@,
    {
        FileSpec {
            file_uuid: self.file_uuid,
            file_format: self.file_format,
            file_path: self.file_path.clone(),
            record_count: self.record_count,
            file_size_bytes: self.file_size_bytes,
            partition_values: clone_json(&self.partition_values),
            format_options: clone_json(&self.format_options),
        }
    }
}

/// What comes of checking an input.
#[verifier::ext_equal]
pub enum Judgement {
    /// It is fine.
    Fine,
    /// It is refused.
    Refused(ErrorView),
    /// A format's own builder panics on its options.
    Panics,
}

/// What comes of checking the options of a file.
pub open spec fn options_judgement(format: Format, options: JsonModel) -> Judgement {
    match options_verdict(format_name(format), options) {
        OptionsVerdict::Fine => Judgement::Fine,
        OptionsVerdict::Refused(s) => Judgement::Refused(
            ErrorView::InvalidArgument(storage_error_text(StorageErrorView::Unsupported(s))),
        ),
        OptionsVerdict::Panics => Judgement::Panics,
    }
}

/// What comes of checking a file specification: a path that is not blank, counts that are not
/// negative, JSON objects where there is JSON, and options that the format takes.
pub open spec fn file_judgement(file: FileSpecView) -> Judgement {
    if blank(file.file_path) {
        Judgement::Refused(ErrorView::InvalidArgument("file path cannot be empty"@))
    } else if file.record_count < 0 {
        Judgement::Refused(ErrorView::InvalidArgument("record_count cannot be negative"@))
    } else if file.file_size_bytes < 0 {
        Judgement::Refused(ErrorView::InvalidArgument("file_size_bytes cannot be negative"@))
    } else if file.partition_values is Some && !(file.partition_values->0 is Object) {
        Judgement::Refused(ErrorView::InvalidArgument("partition_values must be a JSON object"@))
    } else {
        match file.format_options {
            None => Judgement::Fine,
            Some(options) => if !(options is Object) {
                Judgement::Refused(
                    ErrorView::InvalidArgument("format_options must be a JSON object"@),
                )
            } else {
                options_judgement(file.file_format, options)
            },
        }
    }
}

impl FileSpec {
    /// Create a new file specification.
    pub fn new(
        file_format: Format,
        file_path: &str,
        record_count: i64,
        file_size_bytes: i64,
    ) -> (r: Self)
        ensures
            r@ == (FileSpecView {
                file_uuid: None,
                file_format,
                file_path: file_path@,
                record_count,
                file_size_bytes,
                partition_values: None,
                format_options: None,
            }),
    {
        FileSpec {
            file_uuid: None,
            file_format,
            file_path: String::from_str(file_path),
            record_count,
            file_size_bytes,
            partition_values: None,
            format_options: None,
        }
    }

    /// Set the file UUID.
    pub fn with_uuid(self, uuid: Uuid) -> (r: Self)
        ensures
            r@ == (FileSpecView { file_uuid: Some(uuid), ..self@ }),
    {
        let mut r = self;
        r.file_uuid = Some(uuid);
        r
    }

    /// Set partition values.
    pub fn with_partition_values(self, values: serde_json::Value) -> (r: Self)
        ensures
            r@ == (FileSpecView { partition_values: Some(json_model(values)), ..self@ }),
    {
        let mut r = self;
        r.partition_values = Some(values);
        r
    }

    /// Set format-specific options from JSON.
    pub fn with_format_options(self, options: serde_json::Value) -> (r: Self)
        ensures
            r@ == (FileSpecView { format_options: Some(json_model(options)), ..self@ }),
    {
        let mut r = self;
        r.format_options = Some(options);
        r
    }

    /// Set format-specific options from JSON with validation.
    pub fn with_format_options_checked(self, options: serde_json::Value) -> (r: Result<Self>)
        requires
            !(options_judgement(self.file_format, json_model(options)) is Panics),
        ensures
            match r {
                Ok(file) => options_judgement(self.file_format, json_model(options)) is Fine
                    && file@ == (FileSpecView {
                    format_options: Some(json_model(options)),
                    ..self@
                }),
                Err(e) => options_judgement(self.file_format, json_model(options))
                    == Judgement::Refused(e@),
            },
    {
        match validate_format_options(self.file_format.as_str(), &options) {
            Ok(_) => {
                let mut r = self;
                r.format_options = Some(options);
                Ok(r)
            },
            Err(e) => Err(CatalogError::InvalidArgument(e.to_string())),
        }
    }

    /// Set format-specific options from JSON with validation; nothing where the format's own
    /// builder panics on them.
    pub fn try_with_format_options(self, options: serde_json::Value) -> (r: Option<Result<Self>>)
        ensures
            match r {
                Some(Ok(file)) => options_judgement(self.file_format, json_model(options)) is Fine
                    && file@ == (FileSpecView {
                    format_options: Some(json_model(options)),
                    ..self@
                }),
                Some(Err(e)) => options_judgement(self.file_format, json_model(options))
                    == Judgement::Refused(e@),
                None => options_judgement(self.file_format, json_model(options)) is Panics,
            },
    {
        match validate_format_options_checked(self.file_format.as_str(), &options) {
            Some(_) => Some(self.with_format_options_checked(options)),
            None => None,
        }
    }

    fn judge(&self) -> (r: Option<Result<()>>)
        ensures
            match r {
                Some(Ok(_)) => file_judgement(self@) is Fine,
                Some(Err(e)) => file_judgement(self@) == Judgement::Refused(e@),
                None => file_judgement(self@) is Panics,
            },
    {
        if is_blank(self.file_path.as_str()) {
            return Some(
                Err(CatalogError::InvalidArgument(String::from_str("file path cannot be empty"))),
            );
        }
        if self.record_count < 0 {
            return Some(
                Err(
                    CatalogError::InvalidArgument(
                        String::from_str("record_count cannot be negative"),
                    ),
                ),
            );
        }
        if self.file_size_bytes < 0 {
            return Some(
                Err(
                    CatalogError::InvalidArgument(
                        String::from_str("file_size_bytes cannot be negative"),
                    ),
                ),
            );
        }
        if let Some(partition_values) = &self.partition_values {
            if !value_is_object(partition_values) {
                return Some(
                    Err(
                        CatalogError::InvalidArgument(
                            String::from_str("partition_values must be a JSON object"),
                        ),
                    ),
                );
            }
        }
        match &self.format_options {
            None => Some(Ok(())),
            Some(format_options) => {
                if !value_is_object(format_options) {
                    return Some(
                        Err(
                            CatalogError::InvalidArgument(
                                String::from_str("format_options must be a JSON object"),
                            ),
                        ),
                    );
                }
                match validate_format_options_checked(self.file_format.as_str(), format_options) {
                    Some(Ok(_)) => Some(Ok(())),
                    Some(Err(e)) => Some(Err(CatalogError::InvalidArgument(e.to_string()))),
                    None => None,
                }
            },
        }
    }

    /// Validate file metadata shape and bounds.
    pub fn validate(&self) -> (r: Result<()>)
        requires
            !(file_judgement(self@) is Panics),
        ensures
            match r {
                Ok(_) => file_judgement(self@) is Fine,
                Err(e) => file_judgement(self@) == Judgement::Refused(e@),
            },
    {
        match self.judge() {
            Some(r) => r,
            None => {
                assert(false);
                Ok(())
            },
        }
    }

    /// Validate file metadata shape and bounds; nothing where the format's own builder panics on
    /// the options.
    pub fn try_validate(&self) -> (r: Option<Result<()>>)
        ensures
            match r {
                Some(Ok(_)) => file_judgement(self@) is Fine,
                Some(Err(e)) => file_judgement(self@) == Judgement::Refused(e@),
                None => file_judgement(self@) is Panics,
            },
    {
        match self.judge() {
            Some(_) => Some(self.validate()),
            None => None,
        }
    }
}

/// Atomic table mutation operation.
#[derive(Debug)]
pub enum MutationOp {
    /// Append files to the table.
    AppendFiles(Vec<FileSpec>),
    /// Delete files by UUID.
    DeleteFiles(Vec<Uuid>),
    /// Update the table schema.
    UpdateSchema(SchemaSpec),
    /// Set table properties (replaces existing).
    SetProperties(TableProperties),
    /// Remove properties by key.
    RemoveProperties(Vec<PropertyKey>),
}

/// What a mutation operation holds.
#[verifier::ext_equal]
pub enum OpView {
    /// Append files.
    AppendFiles(Seq<FileSpecView>),
    /// Delete files by UUID.
    DeleteFiles(Seq<Uuid>),
    /// Update the table schema.
    UpdateSchema(Seq<ColumnSpecView>),
    /// Set table properties.
    SetProperties(JsonObject),
    /// Remove properties by key.
    RemoveProperties(Seq<Seq<char>>),
}

impl View for MutationOp {
    type V = OpView;

    open spec fn view(&self) -> OpView {
        match self {
            MutationOp::AppendFiles(files) => OpView::AppendFiles(
                Seq::new(files@.len(), |i: int| files@[i]@),
            ),
            MutationOp::DeleteFiles(uuids) => OpView::DeleteFiles(uuids@),
            MutationOp::UpdateSchema(schema) => OpView::UpdateSchema(schema@),
            MutationOp::SetProperties(properties) => OpView::SetProperties(properties@),
            MutationOp::RemoveProperties(keys) => OpView::RemoveProperties(
                Seq::new(keys@.len(), |i: int| keys@[i]@),
            ),
        }
    }
}

/// Collection of operations applied atomically in one commit.
#[derive(Debug)]
pub struct Mutation {
    /// Operations to apply.
    pub operations: Vec<MutationOp>,
}

impl View for Mutation {
    type V = Seq<OpView>;

    open spec fn view(&self) -> Seq<OpView> {
        Seq::new(self.operations@.len(), |i: int| self.operations@[i]@)
    }
}

impl Default for Mutation {
    fn default() -> (r: Self)
        ensures
            r@ == Seq::<OpView>::empty(),
    {
        let r = Mutation { operations: Vec::new() };
        assert(r@ =~= Seq::<OpView>::empty());
        r
    }
}

/// The first item that an earlier one repeats.
pub open spec fn first_repeat<T>(items: Seq<T>) -> Option<T>
    decreases items.len(),
{
    if items.len() == 0 {
        None
    } else {
        match first_repeat(items.drop_last()) {
            Some(x) => Some(x),
            None => if items.drop_last().contains(items.last()) {
                Some(items.last())
            } else {
                None
            },
        }
    }
}

proof fn first_repeat_stays<T>(items: Seq<T>, n: nat)
    requires
        n <= items.len(),
        first_repeat(items.take(n as int)) is Some,
    ensures
        first_repeat(items) == first_repeat(items.take(n as int)),
    decreases items.len(),
{
    if n == items.len() {
        assert(items.take(n as int) =~= items);
    } else {
        assert(items.drop_last().take(n as int) =~= items.take(n as int));
        first_repeat_stays(items.drop_last(), n);
    }
}

/// Items of which none repeats an earlier one are all different.
pub proof fn no_repeat_means_distinct<T>(items: Seq<T>)
    requires
        first_repeat(items) is None,
    ensures
        items.no_duplicates(),
    decreases items.len(),
{
    if items.len() > 0 {
        let front = items.drop_last();
        no_repeat_means_distinct(front);
        assert forall|i: int, j: int|
            0 <= i < items.len() && 0 <= j < items.len() && i != j implies items[i]
            != items[j] by {
            if i < items.len() - 1 {
                assert(front[i] == items[i]);
                assert(front.contains(items[i]));
            }
            if j < items.len() - 1 {
                assert(front[j] == items[j]);
                assert(front.contains(items[j]));
            }
        }
    }
}

/// The flaw of an operation that comes after others, if it has one.
pub open spec fn op_flaw(before: Seq<OpView>, op: OpView) -> Option<ErrorView> {
    match op {
        OpView::UpdateSchema(_) => if exists|i: int|
            0 <= i < before.len() && #[trigger] before[i] is UpdateSchema {
            Some(
                ErrorView::InvalidArgument(
                    "mutation can include at most one UpdateSchema operation"@,
                ),
            )
        } else {
            None
        },
        OpView::SetProperties(_) => if exists|i: int|
            0 <= i < before.len() && #[trigger] before[i] is SetProperties {
            Some(
                ErrorView::InvalidArgument(
                    "mutation can include at most one SetProperties operation"@,
                ),
            )
        } else {
            None
        },
        OpView::DeleteFiles(uuids) => match first_repeat(uuids) {
            Some(uuid) => Some(
                ErrorView::InvalidArgument(
                    "duplicate file UUID in DeleteFiles: "@ + hyphenated(uuid.value as nat),
                ),
            ),
            None => None,
        },
        OpView::RemoveProperties(keys) => match first_repeat(keys) {
            Some(key) => Some(
                ErrorView::InvalidArgument("duplicate property key in RemoveProperties: "@ + key),
            ),
            None => None,
        },
        OpView::AppendFiles(_) => None,
    }
}

/// The first flaw of a list of operations: at most one may set the schema, at most one the
/// properties, and no operation names a file or a key twice.
pub open spec fn ops_flaw(ops: Seq<OpView>) -> Option<ErrorView>
    decreases ops.len(),
{
    if ops.len() == 0 {
        None
    } else {
        match ops_flaw(ops.drop_last()) {
            Some(e) => Some(e),
            None => op_flaw(ops.drop_last(), ops.last()),
        }
    }
}

proof fn ops_flaw_stays(ops: Seq<OpView>, n: nat)
    requires
        n <= ops.len(),
        ops_flaw(ops.take(n as int)) is Some,
    ensures
        ops_flaw(ops) == ops_flaw(ops.take(n as int)),
    decreases ops.len(),
{
    if n == ops.len() {
        assert(ops.take(n as int) =~= ops);
    } else {
        assert(ops.drop_last().take(n as int) =~= ops.take(n as int));
        ops_flaw_stays(ops.drop_last(), n);
    }
}

/// In a mutation without a flaw at most one operation sets the schema and at most one the
/// properties, and no operation names a file or a key twice.
pub proof fn sound_mutation(ops: Seq<OpView>)
    requires
        ops_flaw(ops) is None,
    ensures
        forall|i: int, j: int|
            0 <= i < j < ops.len() && #[trigger] ops[i] is UpdateSchema ==> !(
            #[trigger] ops[j] is UpdateSchema),
        forall|i: int, j: int|
            0 <= i < j < ops.len() && #[trigger] ops[i] is SetProperties ==> !(
            #[trigger] ops[j] is SetProperties),
        forall|i: int|
            0 <= i < ops.len() ==> (#[trigger] ops[i] matches OpView::DeleteFiles(uuids)
                ==> uuids.no_duplicates()),
        forall|i: int|
            0 <= i < ops.len() ==> (#[trigger] ops[i] matches OpView::RemoveProperties(keys)
                ==> keys.no_duplicates()),
    decreases ops.len(),
{
    if ops.len() > 0 {
        let front = ops.drop_last();
        sound_mutation(front);
        let last = ops.last();
        if let OpView::DeleteFiles(uuids) = last {
            no_repeat_means_distinct(uuids);
        }
        if let OpView::RemoveProperties(keys) = last {
            no_repeat_means_distinct(keys);
        }
        assert forall|i: int, j: int|
            0 <= i < j < ops.len() && #[trigger] ops[i] is UpdateSchema implies !(
            #[trigger] ops[j] is UpdateSchema) by {
            assert(front[i] == ops[i]);
            if j < ops.len() - 1 {
                assert(front[j] == ops[j]);
            }
        }
        assert forall|i: int, j: int|
            0 <= i < j < ops.len() && #[trigger] ops[i] is SetProperties implies !(
            #[trigger] ops[j] is SetProperties) by {
            assert(front[i] == ops[i]);
            if j < ops.len() - 1 {
                assert(front[j] == ops[j]);
            }
        }
        assert forall|i: int| 0 <= i < ops.len() implies (
        #[trigger] ops[i] matches OpView::DeleteFiles(uuids) ==> uuids.no_duplicates()) by {
            if i < ops.len() - 1 {
                assert(front[i] == ops[i]);
            }
        }
        assert forall|i: int| 0 <= i < ops.len() implies (
        #[trigger] ops[i] matches OpView::RemoveProperties(keys) ==> keys.no_duplicates()) by {
            if i < ops.len() - 1 {
                assert(front[i] == ops[i]);
            }
        }
    }
}

fn repeated_uuid(uuids: &Vec<Uuid>) -> (r: Option<Uuid>)
    ensures
        r == first_repeat(uuids@),
{
    let mut seen: HashSet<u128> = HashSet::new();
    assert(uuids@.take(0) =~= Seq::<Uuid>::empty());
    for i in 0..uuids.len()
        invariant
            first_repeat(uuids@.take(i as int)) is None,
            forall|v: u128|
                #[trigger] seen@.contains(v) <==> uuids@.take(i as int).contains(
                    Uuid { value: v },
                ),
    {
        let ghost before = uuids@.take(i as int);
        let uuid = uuids[i];
        proof {
            assert(uuids@.take(i + 1).drop_last() =~= before);
            assert(uuids@.take(i + 1).last() == uuid);
            assert(Uuid { value: uuid.value } == uuid);
        }
        if !seen.insert(uuid.value) {
            proof {
                first_repeat_stays(uuids@, (i + 1) as nat);
            }
            return Some(uuid);
        }
        proof {
            let after = uuids@.take(i + 1);
            assert(after =~= before.push(uuid));
            assert forall|v: u128| #[trigger] seen@.contains(v) <==> after.contains(
                Uuid { value: v },
            ) by {
                let x = Uuid { value: v };
                if after.contains(x) {
                    let k = choose|k: int| 0 <= k < after.len() && after[k] == x;
                    if k < before.len() {
                        assert(before[k] == x);
                        assert(before.contains(x));
                    }
                }
                if before.contains(x) {
                    let k = choose|k: int| 0 <= k < before.len() && before[k] == x;
                    assert(after[k] == x);
                }
                if v == uuid.value {
                    assert(after[i as int] == x);
                }
            }
        }
    }
    assert(uuids@.take(uuids@.len() as int) =~= uuids@);
    None
}

/// The texts of a list of property keys.
pub open spec fn key_texts(keys: Seq<PropertyKey>) -> Seq<Seq<char>> {
    Seq::new(keys.len(), |i: int| keys[i]@)
}

fn repeated_key(keys: &Vec<PropertyKey>) -> (r: Option<String>)
    ensures
        match r {
            Some(key) => first_repeat(key_texts(keys@)) == Some(key@),
            None => first_repeat(key_texts(keys@)) is None,
        },
{
    let ghost texts = key_texts(keys@);
    let mut seen = StringHashSet::new();
    assert(texts.take(0) =~= Seq::<Seq<char>>::empty());
    for i in 0..keys.len()
        invariant
            texts == key_texts(keys@),
            first_repeat(texts.take(i as int)) is None,
            forall|s: Seq<char>| #[trigger] seen@.contains(s) <==> texts.take(i as int).contains(s),
    {
        let ghost before = texts.take(i as int);
        let key = keys[i].as_str();
        proof {
            assert(texts.take(i + 1).drop_last() =~= before);
            assert(texts.take(i + 1).last() == key@);
        }
        if !seen.insert(String::from_str(key)) {
            proof {
                first_repeat_stays(texts, (i + 1) as nat);
            }
            return Some(String::from_str(key));
        }
        proof {
            let after = texts.take(i + 1);
            assert(after =~= before.push(key@));
            assert forall|s: Seq<char>| #[trigger] seen@.contains(s) <==> after.contains(s) by {
                if after.contains(s) {
                    let k = choose|k: int| 0 <= k < after.len() && after[k] == s;
                    if k < before.len() {
                        assert(before[k] == s);
                        assert(before.contains(s));
                    }
                }
                if before.contains(s) {
                    let k = choose|k: int| 0 <= k < before.len() && before[k] == s;
                    assert(after[k] == s);
                }
                if s == key@ {
                    assert(after[i as int] == s);
                }
            }
        }
    }
    assert(texts.take(texts.len() as int) =~= texts);
    None
}

impl Mutation {
    /// Validate mutation semantics before persistence.
    pub fn validate(&self) -> (r: Result<()>)
        ensures
            match r {
                Ok(_) => ops_flaw(self@) is None,
                Err(e) => ops_flaw(self@) == Some(e@),
            },
    {
        let ghost ops = self@;
        let mut has_schema = false;
        let mut has_properties = false;
        assert(ops.take(0) =~= Seq::<OpView>::empty());
        for i in 0..self.operations.len()
            invariant
                ops == self@,
                ops_flaw(ops.take(i as int)) is None,
                has_schema <==> exists|k: int| 0 <= k < i && #[trigger] ops[k] is UpdateSchema,
                has_properties <==> exists|k: int|
                    0 <= k < i && #[trigger] ops[k] is SetProperties,
        {
            let ghost before = ops.take(i as int);
            let op = &self.operations[i];
            proof {
                assert(ops.take(i + 1).drop_last() =~= before);
                assert(ops.take(i + 1).last() == ops[i as int]);
                assert(ops[i as int] == op@);
                assert forall|k: int| 0 <= k < i implies before[k] == #[trigger] ops[k] by {}
                if has_schema {
                    let k = choose|k: int| 0 <= k < i && #[trigger] ops[k] is UpdateSchema;
                    assert(before[k] is UpdateSchema);
                }
                if has_properties {
                    let k = choose|k: int| 0 <= k < i && #[trigger] ops[k] is SetProperties;
                    assert(before[k] is SetProperties);
                }
                if op_flaw(before, op@) is Some {
                    assert(ops_flaw(ops.take(i + 1)) is Some);
                    ops_flaw_stays(ops, (i + 1) as nat);
                }
            }
            match op {
                MutationOp::UpdateSchema(_) => {
                    if has_schema {
                        return Err(
                            CatalogError::InvalidArgument(
                                String::from_str(
                                    "mutation can include at most one UpdateSchema operation",
                                ),
                            ),
                        );
                    }
                    has_schema = true;
                },
                MutationOp::SetProperties(_) => {
                    if has_properties {
                        return Err(
                            CatalogError::InvalidArgument(
                                String::from_str(
                                    "mutation can include at most one SetProperties operation",
                                ),
                            ),
                        );
                    }
                    has_properties = true;
                },
                MutationOp::DeleteFiles(file_uuids) => {
                    if let Some(uuid) = repeated_uuid(file_uuids) {
                        return Err(
                            CatalogError::InvalidArgument(
                                joined(
                                    "duplicate file UUID in DeleteFiles: ",
                                    uuid.to_string().as_str(),
                                ),
                            ),
                        );
                    }
                },
                MutationOp::RemoveProperties(keys) => {
                    if let Some(key) = repeated_key(keys) {
                        return Err(
                            CatalogError::InvalidArgument(
                                joined(
                                    "duplicate property key in RemoveProperties: ",
                                    key.as_str(),
                                ),
                            ),
                        );
                    }
                },
                MutationOp::AppendFiles(_) => {},
            }
            proof {
                if op@ is UpdateSchema || op@ is SetProperties {
                    assert(ops[i as int] is UpdateSchema || ops[i as int] is SetProperties);
                }
            }
        }
        assert(ops.take(ops.len() as int) =~= ops);
        Ok(())
    }
}

/// Builder for constructing table mutations on a base transaction.
#[derive(Debug)]
pub struct MutationBuilder {
    /// Table identifier.
    pub ident: TableIdent,
    /// Base transaction ID for optimistic concurrency control.
    pub base_transaction_id: TxnId,
    /// Mutation operations to apply.
    pub mutation: Mutation,
}

impl MutationBuilder {
    /// The builder with one more operation.
    pub open spec fn extended(self, r: Self, op: OpView) -> bool {
        &&& r.ident == self.ident
        &&& r.base_transaction_id == self.base_transaction_id
        &&& r.mutation@ == self.mutation@.push(op)
    }

    /// Create a new mutation builder.
    pub fn new(ident: TableIdent, base_transaction_id: TxnId) -> (r: Self)
        ensures
            r.ident == ident,
            r.base_transaction_id == base_transaction_id,
            r.mutation@ == Seq::<OpView>::empty(),
    {
        MutationBuilder { ident, base_transaction_id, mutation: Mutation::default() }
    }

    fn with_op(self, op: MutationOp) -> (r: Self)
        ensures
            self.extended(r, op@),
    {
        let mut operations = self.mutation.operations;
        operations.push(op);
        let mutation = Mutation { operations };
        assert(mutation@ =~= self.mutation@.push(op@));
        MutationBuilder {
            ident: self.ident,
            base_transaction_id: self.base_transaction_id,
            mutation,
        }
    }

    /// Append multiple files to the table.
    pub fn append_files(self, files: Vec<FileSpec>) -> (r: Self)
        ensures
            self.extended(r, OpView::AppendFiles(Seq::new(files@.len(), |i: int| files@[i]@))),
    {
        self.with_op(MutationOp::AppendFiles(files))
    }

    /// Append a single file to the table.
    pub fn append_file(self, file: FileSpec) -> (r: Self)
        ensures
            self.extended(r, OpView::AppendFiles(seq![file@])),
    {
        let mut files: Vec<FileSpec> = Vec::new();
        files.push(file);
        assert(Seq::new(files@.len(), |i: int| files@[i]@) =~= seq![file@]);
        self.with_op(MutationOp::AppendFiles(files))
    }

    /// Delete files by UUID.
    pub fn delete_files(self, file_uuids: Vec<Uuid>) -> (r: Self)
        ensures
            self.extended(r, OpView::DeleteFiles(file_uuids@)),
    {
        self.with_op(MutationOp::DeleteFiles(file_uuids))
    }

    /// Update the table schema.
    pub fn update_schema(self, schema: SchemaSpec) -> (r: Self)
        ensures
            self.extended(r, OpView::UpdateSchema(schema@)),
    {
        self.with_op(MutationOp::UpdateSchema(schema))
    }

    /// Set table properties (replaces existing).
    pub fn set_properties(self, properties: TableProperties) -> (r: Self)
        ensures
            self.extended(r, OpView::SetProperties(properties@)),
    {
        self.with_op(MutationOp::SetProperties(properties))
    }

    /// Remove properties by key.
    pub fn remove_properties(self, keys: Vec<PropertyKey>) -> (r: Self)
        ensures
            self.extended(r, OpView::RemoveProperties(key_texts(keys@))),
    {
        self.with_op(MutationOp::RemoveProperties(keys))
    }
}

/// Handle for interacting with a table.
#[derive(Debug)]
pub struct TableHandle {
    ident: TableIdent,
}

impl TableHandle {
    /// The table that the handle is for.
    pub closed spec fn table(&self) -> TableIdent {
        self.ident
    }

    /// Create a new table handle.
    pub fn new(ident: TableIdent) -> (r: Self)
        ensures
            r.table() == ident,
    {
        TableHandle { ident }
    }

    /// Get the table identifier.
    pub fn ident(&self) -> (r: &TableIdent)
        ensures
            *r == self.table(),
    {
        &self.ident
    }

    /// Create a mutation builder pinned to a base transaction: the given one, or else the one
    /// that is current.
    pub fn write(&self, base_transaction_id: Option<TxnId>, current_transaction_id: TxnId) -> (r:
        MutationBuilder)
        ensures
            r.ident.namespace@ == self.table().namespace@,
            r.ident.name@ == self.table().name@,
            r.base_transaction_id == (match base_transaction_id {
                Some(id) => id,
                None => current_transaction_id,
            }),
            r.mutation@ == Seq::<OpView>::empty(),
    {
        let txn_id = match base_transaction_id {
            Some(id) => id,
            None => current_transaction_id,
        };
        MutationBuilder::new(self.ident.clone(), txn_id)
    }
}

} // verus!
