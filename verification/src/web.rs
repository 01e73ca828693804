//! What the web pages show.
use crate::job::StratumJob;
use crate::json::{
    json_array, json_integer, json_members, json_model, json_models, json_object, json_text, JsonModel,
};
use crate::storage::Worker;
use crate::text::{decimal, decimal_text};
use serde_json::Value;
use vstd::prelude::*;

verus! {

/// How many blocks the page of blocks asks for.
pub const RECENT_BLOCKS: i64 = 50;

/// The window of a hashrate where a query names none, in seconds.
pub const DEFAULT_WINDOW_SECS: i64 = 300;

/// The span of a share history where a query names none, in minutes.
pub const DEFAULT_MINUTES: i64 = 60;

/// The page with the workers and the current job.
pub struct DashboardTemplate {
    pub workers: Vec<Worker>,
    pub job: Option<StratumJob>,
}

/// The page with the workers.
pub struct WorkersTemplate {
    pub workers: Vec<Worker>,
}

/// A block as its page shows it.
#[derive(Debug)]
pub struct BlockRow {
    pub height: String,
    pub hash: String,
    pub status: String,
    pub timestamp: String,
}

/// The page with the blocks.
pub struct BlocksTemplate {
    pub blocks: Vec<BlockRow>,
}

/// What a row of the page of blocks says.
#[verifier::ext_equal]
pub struct BlockRowModel {
    pub height: Seq<char>,
    pub hash: Seq<char>,
    pub status: Seq<char>,
    pub timestamp: Seq<char>,
}

impl View for BlockRow {
    type V = BlockRowModel;

    open spec fn view(&self) -> BlockRowModel {
        BlockRowModel {
            height: self.height@,
            hash: self.hash@,
            status: self.status@,
            timestamp: self.timestamp@,
        }
    }
}

impl Clone for BlockRow {
    fn clone(&self) -> (copy: BlockRow)
        ensures
            copy@ == self@,
    {
        BlockRow {
            height: self.height.clone(),
            hash: self.hash.clone(),
            status: self.status.clone(),
            timestamp: self.timestamp.clone(),
        }
    }
}

/// A block as the database holds it: height, hash, status and time.
pub type StoredBlock = (Option<i64>, Option<String>, String, String);

/// What the page shows of a stored block: a dash where the height or the hash is not known.
pub open spec fn row_of(block: StoredBlock) -> BlockRowModel {
    BlockRowModel {
        height: match block.0 {
            Some(height) => decimal(height as int),
            None => "-"@,
        },
        hash: match block.1 {
            Some(hash) => hash@,
            None => "-"@,
        },
        status: block.2@,
        timestamp: block.3@,
    }
}

/// What each row says.
pub open spec fn row_views(rows: Seq<BlockRow>) -> Seq<BlockRowModel> {
    Seq::new(rows.len(), |i: int| rows[i]@)
}

/// Makes the row of a stored block.
pub fn block_row(block: &StoredBlock) -> (row: BlockRow)
    ensures
        row@ == row_of(*block),
{
    BlockRow {
        height: match block.0 {
            Some(height) => decimal_text(height),
            None => "-".to_owned(),
        },
        hash: match &block.1 {
            Some(hash) => hash.clone(),
            None => "-".to_owned(),
        },
        status: block.2.clone(),
        timestamp: block.3.clone(),
    }
}

/// Makes the page of blocks: a row for each stored block, in order, and none where they could
/// not be read.
pub fn blocks(list: Option<Vec<StoredBlock>>) -> (page: BlocksTemplate)
    ensures
        row_views(page.blocks@) == match list {
            Some(list) => Seq::new(list@.len(), |i: int| row_of(list@[i])),
            None => Seq::empty(),
        },
{
    let mut rows: Vec<BlockRow> = Vec::new();
    if let Some(list) = &list {
        let ghost wanted = Seq::new(list@.len(), |i: int| row_of(list@[i]));
        let mut i: usize = 0;
        assert(row_views(rows@) =~= wanted.take(0));
        while i < list.len()
            invariant
                i <= list.len(),
                wanted == Seq::new(list@.len(), |i: int| row_of(list@[i])),
                row_views(rows@) == wanted.take(i as int),
            decreases list.len() - i,
        {
            assert(row_views(rows@).len() == i);
            rows.push(block_row(&list[i]));
            assert(row_views(rows@) =~= wanted.take(i + 1));
            i += 1;
        }
        assert(wanted.take(i as int) =~= wanted);
    } else {
        assert(row_views(rows@) =~= Seq::empty());
    }
    BlocksTemplate { blocks: rows }
}

/// The workers that were read, or none where they could not be.
fn or_none(list: Option<Vec<Worker>>) -> (workers: Vec<Worker>)
    ensures
        list is Some ==> workers == list->0,
        list is None ==> workers@.len() == 0,
{
    match list {
        Some(workers) => workers,
        None => Vec::new(),
    }
}

/// Makes the page with the workers and the current job.
pub fn dashboard(list: Option<Vec<Worker>>, job: Option<StratumJob>) -> (page: DashboardTemplate)
    ensures
        list is Some ==> page.workers == list->0,
        list is None ==> page.workers@.len() == 0,
        page.job == job,
{
    DashboardTemplate { workers: or_none(list), job }
}

/// Makes the page with the workers.
pub fn workers(list: Option<Vec<Worker>>) -> (page: WorkersTemplate)
    ensures
        list is Some ==> page.workers == list->0,
        list is None ==> page.workers@.len() == 0,
{
    WorkersTemplate { workers: or_none(list) }
}

/// The window in seconds and the span in minutes that a query for a worker's metrics means.
pub fn metrics_spans(window: Option<i64>, minutes: Option<i64>) -> (spans: (i64, i64))
    ensures
        spans.0 == (match window {
            Some(window) => window,
            None => DEFAULT_WINDOW_SECS,
        }),
        spans.1 == (match minutes {
            Some(minutes) => minutes,
            None => DEFAULT_MINUTES,
        }),
{
    (
        match window {
            Some(window) => window,
            None => DEFAULT_WINDOW_SECS,
        },
        match minutes {
            Some(minutes) => minutes,
            None => DEFAULT_MINUTES,
        },
    )
}

/// Each bucket of a share history as a JSON value: the second it starts at, and its count.
pub open spec fn bucket_models(buckets: Seq<(i64, i64)>) -> Seq<JsonModel> {
    Seq::new(
        buckets.len(),
        |i: int|
            JsonModel::Array(
                seq![
                    JsonModel::Number(decimal(buckets[i].0 as int)),
                    JsonModel::Number(decimal(buckets[i].1 as int)),
                ],
            ),
    )
}

/// The answer to a query for a worker's metrics.
pub open spec fn metrics_model(
    worker: Seq<char>,
    window: i64,
    hashrate: JsonModel,
    buckets: Seq<(i64, i64)>,
) -> JsonModel {
    JsonModel::Object(
        map![
            "worker"@ => JsonModel::Text(worker),
            "window_secs"@ => JsonModel::Number(decimal(window as int)),
            "hashrate_hps"@ => hashrate,
            "spark"@ => JsonModel::Array(bucket_models(buckets)),
        ],
    )
}

fn bucket_values(buckets: &Vec<(i64, i64)>) -> (values: Vec<Value>)
    ensures
        json_models(values@) == bucket_models(buckets@),
{
    let ghost wanted = bucket_models(buckets@);
    let mut values: Vec<Value> = Vec::new();
    let mut i: usize = 0;
    while i < buckets.len()
        invariant
            i <= buckets.len(),
            wanted == bucket_models(buckets@),
            json_models(values@) == wanted.take(i as int),
        decreases buckets.len() - i,
    {
        assert(json_models(values@).len() == i);
        let mut pair: Vec<Value> = Vec::new();
        pair.push(json_integer(buckets[i].0));
        pair.push(json_integer(buckets[i].1));
        assert(json_models(pair@) =~= seq![
            JsonModel::Number(decimal(buckets@[i as int].0 as int)),
            JsonModel::Number(decimal(buckets@[i as int].1 as int)),
        ]);
        values.push(json_array(pair));
        assert(json_models(values@) =~= wanted.take(i + 1));
        i += 1;
    }
    assert(wanted.take(i as int) =~= wanted);
    values
}

/// Makes the answer to a query for a worker's metrics.
pub fn metrics_message(worker: &str, window: i64, hashrate: Value, buckets: &Vec<(i64, i64)>) -> (message:
    Value)
    ensures
        json_model(message) == metrics_model(worker@, window, json_model(hashrate), buckets@),
{
    let mut members: Vec<(String, Value)> = Vec::new();
    members.push(("worker".to_owned(), json_text(worker)));
    let ghost one = members@;
    members.push(("window_secs".to_owned(), json_integer(window)));
    let ghost two = members@;
    members.push(("hashrate_hps".to_owned(), hashrate));
    let ghost three = members@;
    members.push(("spark".to_owned(), json_array(bucket_values(buckets))));
    proof {
        reveal_with_fuel(json_members, 5);
        assert(one.drop_last() =~= Seq::empty());
        assert(two.drop_last() =~= one);
        assert(three.drop_last() =~= two);
        assert(members@.drop_last() =~= three);
        assert(json_members(members@) =~= map![
            "worker"@ => JsonModel::Text(worker@),
            "window_secs"@ => JsonModel::Number(decimal(window as int)),
            "hashrate_hps"@ => json_model(hashrate),
            "spark"@ => JsonModel::Array(bucket_models(buckets@)),
        ]);
    }
    json_object(members)
}

} // verus!
