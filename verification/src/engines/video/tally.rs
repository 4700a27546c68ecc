//! The counts a video test keeps while it watches: buffering episodes
//! (each counted once, however often the player repeats itself), loaded
//! segments and received bytes, and the first media host, CDN node and
//! error seen. The times and rates beside them are kept by the caller.

use vstd::prelude::*;
use crate::text::opt_text;

verus! {

/// The counts of a video test.
pub struct MediaTally {
    pub buffer_count: u32,
    pub buffering: bool,
    pub segment_count: u32,
    pub total_bytes: u64,
    pub video_host: Option<String>,
    pub cdn_node: Option<String>,
    pub error: Option<String>,
}

/// The first value that is present: the one kept, else the new one.
pub open spec fn first_of(kept: Option<Seq<char>>, new: Option<Seq<char>>) -> Option<Seq<char>> {
    match kept {
        Some(k) => Some(k),
        None => new,
    }
}

impl MediaTally {
    /// Nothing counted yet.
    pub fn new() -> (r: MediaTally)
        ensures
            r.buffer_count == 0,
            !r.buffering,
            r.segment_count == 0,
            r.total_bytes == 0,
            r.video_host is None,
            r.cdn_node is None,
            r.error is None,
    {
        MediaTally {
            buffer_count: 0,
            buffering: false,
            segment_count: 0,
            total_bytes: 0,
            video_host: None,
            cdn_node: None,
            error: None,
        }
    }

    /// The player reports that it is buffering: a new episode is counted
    /// unless one is already open. Returns whether one began.
    pub fn buffer_started(&mut self) -> (began: bool)
        requires
            old(self).buffering || old(self).buffer_count < u32::MAX,
        ensures
            began == !old(self).buffering,
            final(self).buffering,
            final(self).buffer_count == if began {
                old(self).buffer_count + 1
            } else {
                old(self).buffer_count as int
            },
            final(self).segment_count == old(self).segment_count,
            final(self).total_bytes == old(self).total_bytes,
            opt_text(final(self).video_host) == opt_text(old(self).video_host),
            opt_text(final(self).cdn_node) == opt_text(old(self).cdn_node),
            opt_text(final(self).error) == opt_text(old(self).error),
    {
        if self.buffering {
            false
        } else {
            self.buffering = true;
            self.buffer_count = self.buffer_count + 1;
            true
        }
    }

    /// The player reports that buffering ended. Returns whether an episode
    /// was open (and is now closed).
    pub fn buffer_ended(&mut self) -> (closed: bool)
        ensures
            closed == old(self).buffering,
            !final(self).buffering,
            final(self).buffer_count == old(self).buffer_count,
            final(self).segment_count == old(self).segment_count,
            final(self).total_bytes == old(self).total_bytes,
            opt_text(final(self).video_host) == opt_text(old(self).video_host),
            opt_text(final(self).cdn_node) == opt_text(old(self).cdn_node),
            opt_text(final(self).error) == opt_text(old(self).error),
    {
        let was = self.buffering;
        self.buffering = false;
        was
    }

    /// A media segment of `size` bytes was loaded from `host`; the first
    /// host seen is kept as the media host.
    pub fn segment_loaded(&mut self, host: String, size: u64)
        requires
            old(self).segment_count < u32::MAX,
            old(self).total_bytes + size <= u64::MAX,
        ensures
            final(self).segment_count == old(self).segment_count + 1,
            final(self).total_bytes == old(self).total_bytes + size,
            opt_text(final(self).video_host) == first_of(opt_text(old(self).video_host), Some(host@)),
            final(self).buffer_count == old(self).buffer_count,
            final(self).buffering == old(self).buffering,
            opt_text(final(self).cdn_node) == opt_text(old(self).cdn_node),
            opt_text(final(self).error) == opt_text(old(self).error),
    {
        self.segment_count = self.segment_count + 1;
        self.total_bytes = self.total_bytes + size;
        if self.video_host.is_none() {
            self.video_host = Some(host);
        }
    }

    /// Media bytes arrived.
    pub fn bytes_received(&mut self, bytes: u64)
        requires
            old(self).total_bytes + bytes <= u64::MAX,
        ensures
            final(self).total_bytes == old(self).total_bytes + bytes,
            final(self).segment_count == old(self).segment_count,
            final(self).buffer_count == old(self).buffer_count,
            final(self).buffering == old(self).buffering,
            opt_text(final(self).video_host) == opt_text(old(self).video_host),
            opt_text(final(self).cdn_node) == opt_text(old(self).cdn_node),
            opt_text(final(self).error) == opt_text(old(self).error),
    {
        self.total_bytes = self.total_bytes + bytes;
    }

    /// Playback started from a source on `host`, if it has one; it becomes
    /// the media host unless one was seen already.
    pub fn host_seen(&mut self, host: Option<String>)
        ensures
            opt_text(final(self).video_host) == first_of(opt_text(old(self).video_host), opt_text(host)),
            final(self).total_bytes == old(self).total_bytes,
            final(self).segment_count == old(self).segment_count,
            final(self).buffer_count == old(self).buffer_count,
            final(self).buffering == old(self).buffering,
            opt_text(final(self).cdn_node) == opt_text(old(self).cdn_node),
            opt_text(final(self).error) == opt_text(old(self).error),
    {
        if self.video_host.is_none() {
            self.video_host = host;
        }
    }

    /// A media response came from `node`; the first one is kept.
    pub fn cdn_seen(&mut self, node: String)
        ensures
            opt_text(final(self).cdn_node) == first_of(opt_text(old(self).cdn_node), Some(node@)),
            final(self).total_bytes == old(self).total_bytes,
            final(self).segment_count == old(self).segment_count,
            final(self).buffer_count == old(self).buffer_count,
            final(self).buffering == old(self).buffering,
            opt_text(final(self).video_host) == opt_text(old(self).video_host),
            opt_text(final(self).error) == opt_text(old(self).error),
    {
        if self.cdn_node.is_none() {
            self.cdn_node = Some(node);
        }
    }

    /// The player reported an error; the first one is kept.
    pub fn error_seen(&mut self, message: String)
        ensures
            opt_text(final(self).error) == first_of(opt_text(old(self).error), Some(message@)),
            final(self).total_bytes == old(self).total_bytes,
            final(self).segment_count == old(self).segment_count,
            final(self).buffer_count == old(self).buffer_count,
            final(self).buffering == old(self).buffering,
            opt_text(final(self).video_host) == opt_text(old(self).video_host),
            opt_text(final(self).cdn_node) == opt_text(old(self).cdn_node),
    {
        if self.error.is_none() {
            self.error = Some(message);
        }
    }
}

} // verus!
