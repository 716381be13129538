//! The connection supervisor's decision core.
//!
//! The process-level loop (connect, subscribe, block for the next event)
//! lives outside the library; for every item it receives from a
//! subscription it calls [`handle_stream_item_now`], which normalizes,
//! appends, and decides whether the current connection epoch continues or a
//! reconnect is due. Transport failures and store write failures both end
//! the epoch; neither ends the process.

use vstd::prelude::*;
use crate::database::{append_entry, entry_row, store_rows, DatabaseError, Row};
use crate::events::WindowEvent;
use crate::normalize::{area_spec, class_spec, create_time_entry, name_spec, RawEvent};
use crate::timefmt::{current_timestamp, Timestamp};

verus! {

/// One item received from a live subscription, as the supervisor sees it.
#[derive(Debug)]
pub enum StreamItem {
    /// A well-formed window-change notification.
    Window(RawEvent),
    /// A well-formed event of some other category: discarded.
    NonWindow,
    /// A transport-level failure: connection dropped, protocol error.
    TransportError,
}

/// What the loop around the supervisor must do next.
#[derive(Debug)]
pub enum StepOutcome {
    /// Keep the current connection epoch and wait for the next item.
    Continue,
    /// The transport failed: tear the connection down and reconnect.
    ReconnectAfterTransport,
    /// The store rejected the append: treat the epoch as over, reconnect,
    /// and surface the error for logging.
    ReconnectAfterStoreFailure(DatabaseError),
}

/// The row under which a raw window-change event observed at `ts` is
/// persisted.
pub open spec fn normalized_row(raw: RawEvent, ts: Timestamp) -> Row {
    (
        WindowEvent::canonical_spec(raw.change).label_spec(),
        ts.format_spec(),
        area_spec(raw),
        class_spec(raw),
        name_spec(raw),
    )
}

/// Drives one received item through normalize-then-append, with the
/// observation time passed in explicitly. A window-change item either
/// extends the store by exactly its normalized row (and the epoch
/// continues) or leaves the store unchanged (and the epoch ends); any other
/// category is discarded; a transport error ends the epoch. The store is
/// never changed in any other way.
pub fn handle_stream_item(conn: &mut rusqlite::Connection, item: StreamItem, now: Timestamp) -> (r:
    StepOutcome)
    requires
        now.valid(),
    ensures
        match item {
            StreamItem::Window(raw) => {
                &&& (r is Continue ==> store_rows(*final(conn)) == store_rows(*old(conn)).push(
                    normalized_row(raw, now),
                ))
                &&& (r is ReconnectAfterStoreFailure ==> store_rows(*final(conn)) == store_rows(
                    *old(conn),
                ))
                &&& (r is Continue || r is ReconnectAfterStoreFailure)
                &&& (r matches StepOutcome::ReconnectAfterStoreFailure(e) ==> e is WriteFailed)
            },
            StreamItem::NonWindow => r is Continue && store_rows(*final(conn)) == store_rows(
                *old(conn),
            ),
            StreamItem::TransportError => r is ReconnectAfterTransport && store_rows(*final(conn))
                == store_rows(*old(conn)),
        },
{
    match item {
        StreamItem::Window(raw) => {
            let entry = create_time_entry(&raw, now);
            proof {
                assert(entry_row(entry) == normalized_row(raw, now));
            }
            match append_entry(conn, &entry) {
                Ok(()) => StepOutcome::Continue,
                Err(e) => StepOutcome::ReconnectAfterStoreFailure(e),
            }
        },
        StreamItem::NonWindow => StepOutcome::Continue,
        StreamItem::TransportError => StepOutcome::ReconnectAfterTransport,
    }
}

/// [`handle_stream_item`] with the observation time read from the wall
/// clock, as the process-level loop calls it: a window-change item that
/// continues the epoch extends the store by its normalized row for some
/// valid observation time, and no item changes the store in any other way.
pub fn handle_stream_item_now(conn: &mut rusqlite::Connection, item: StreamItem) -> (r:
    StepOutcome)
    ensures
        match item {
            StreamItem::Window(raw) => {
                &&& (r is Continue ==> exists|ts: Timestamp|
                    ts.valid() && store_rows(*final(conn)) == store_rows(*old(conn)).push(
                        #[trigger] normalized_row(raw, ts),
                    ))
                &&& (r is ReconnectAfterStoreFailure ==> store_rows(*final(conn)) == store_rows(
                    *old(conn),
                ))
                &&& (r is Continue || r is ReconnectAfterStoreFailure)
                &&& (r matches StepOutcome::ReconnectAfterStoreFailure(e) ==> e is WriteFailed)
            },
            StreamItem::NonWindow => r is Continue && store_rows(*final(conn)) == store_rows(
                *old(conn),
            ),
            StreamItem::TransportError => r is ReconnectAfterTransport && store_rows(*final(conn))
                == store_rows(*old(conn)),
        },
{
    let now = current_timestamp();
    let ghost pre = *conn;
    let ghost sent = item;
    let r = handle_stream_item(conn, item, now);
    proof {
        match sent {
            StreamItem::Window(raw) => {
                if r is Continue {
                    assert(now.valid() && store_rows(*conn) == store_rows(pre).push(
                        normalized_row(raw, now),
                    ));
                }
            },
            _ => {},
        }
    }
    r
}

} // verus!
