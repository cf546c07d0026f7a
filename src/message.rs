//! Queued messages, how each is delivered, and what acknowledges a batch.

use vstd::prelude::*;
use crate::api::API_STATUS_OK;
use crate::error::TsunaLoopError;

verus! {

/// One message of the remote queue.
#[derive(Debug)]
pub struct Message {
    pub id: i64,
    pub title: String,
    pub body: String,
    pub icon: String,
    pub priority: i64,
}

/// Where a message is shown.
#[derive(Debug, Clone, Copy, PartialEq, Eq, Structural)]
pub enum Route {
    /// Plain text on the low-priority sink.
    Silent,
    /// An on-screen notification with the message's icon.
    Notify,
}

pub open spec fn route_spec(priority: i64) -> Route {
    if priority < 0 {
        Route::Silent
    } else {
        Route::Notify
    }
}

/// Negative priorities go to the silent sink, the others to notifications.
pub fn route_of(message: &Message) -> (r: Route)
    ensures
        r == route_spec(message.priority),
{
    if message.priority < 0 {
        Route::Silent
    } else {
        Route::Notify
    }
}

/// `m` is the largest id of a non-empty batch.
pub open spec fn is_max_id(batch: Seq<Message>, m: i64) -> bool {
    &&& exists|i: int| 0 <= i < batch.len() && #[trigger] batch[i].id == m
    &&& forall|i: int| 0 <= i < batch.len() ==> #[trigger] batch[i].id <= m
}

/// The largest id of a batch: the id that acknowledges all of it.
pub fn max_message_id(batch: &Vec<Message>) -> (r: i64)
    requires
        batch@.len() > 0,
    ensures
        is_max_id(batch@, r),
{
    let mut m: i64 = batch[0].id;
    let mut k: usize = 0;
    let mut i: usize = 1;
    while i < batch.len()
        invariant
            1 <= i <= batch@.len(),
            k < i,
            batch@[k as int].id == m,
            forall|j: int| 0 <= j < i ==> #[trigger] batch@[j].id <= m,
        decreases batch@.len() - i,
    {
        if batch[i].id > m {
            m = batch[i].id;
            k = i;
        }
        i = i + 1;
    }
    assert(batch@[k as int].id == m);
    m
}

/// The outcome of a fetch of queued messages, from the response's status
/// and its message list: `None` when the queue is empty.
pub fn batch_from_response(api_status: i64, messages: Option<Vec<Message>>) -> (r: Result<
    Option<Vec<Message>>,
    TsunaLoopError,
>)
    ensures
        api_status != API_STATUS_OK ==> r == Err::<Option<Vec<Message>>, TsunaLoopError>(
            TsunaLoopError::Api,
        ),
        api_status == API_STATUS_OK && messages is None ==> r == Err::<
            Option<Vec<Message>>,
            TsunaLoopError,
        >(TsunaLoopError::Api),
        api_status == API_STATUS_OK && messages is Some ==> (if messages->Some_0@.len() == 0 {
            r == Ok::<Option<Vec<Message>>, TsunaLoopError>(None)
        } else {
            r == Ok::<Option<Vec<Message>>, TsunaLoopError>(messages)
        }),
{
    if api_status != API_STATUS_OK {
        return Err(TsunaLoopError::Api);
    }
    match messages {
        None => Err(TsunaLoopError::Api),
        Some(v) => {
            if v.len() == 0 {
                Ok(None)
            } else {
                Ok(Some(v))
            }
        },
    }
}

} // verus!
