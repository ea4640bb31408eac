//! Accounting for the image preloader, which warms the page cache with the
//! encrypted hibernate image while the system waits for the user to log in.
//! The worker itself (a thread that maps regions of the image's block device)
//! runs outside the library and follows the decisions made here.

use crate::hiberutil::{HibernateError, MIB};
use vstd::prelude::*;

verus! {

/// The largest region mapped in one step.
pub const MAX_REGION_SIZE: u64 = 134217728;

/// The least of two integers.
pub open spec fn min(a: int, b: int) -> int {
    if a <= b {
        a
    } else {
        b
    }
}

/// The number of bytes to preload for an image of `image_size` bytes on a
/// system with `ram_size` bytes of RAM: the image, but no more than 33% of
/// the RAM.
pub fn preload_byte_limit(image_size: u64, ram_size: u64) -> (r: u64)
    ensures
        r == min(image_size as int, ram_size as int * 33 / 100),
{
    let third: u128 = ram_size as u128 * 33 / 100;
    if (image_size as u128) <= third {
        image_size
    } else {
        third as u64
    }
}

/// The share of an image of `image_size` bytes that was preloaded, in
/// percent; 0 for an empty image, and `u64::MAX` where the share does not
/// fit.
pub fn preload_percent(bytes_preloaded: u64, image_size: u64) -> (r: u64)
    ensures
        r == if image_size == 0 {
            0
        } else {
            min(u64::MAX as int, bytes_preloaded as int * 100 / image_size as int)
        },
{
    if image_size == 0 {
        0
    } else {
        let p: u128 = bytes_preloaded as u128 * 100 / image_size as u128;
        if p <= u64::MAX as u128 {
            p as u64
        } else {
            u64::MAX
        }
    }
}

/// What a finished preload reports.
#[derive(Clone, Copy, Debug, PartialEq, Eq, Structural)]
pub struct PreloadStats {
    pub bytes_preloaded: u64,
    /// Throughput in MB/s.
    pub datarate_mbs: u32,
}

/// The progress of one preload run: how much of the bytes it may load it has
/// loaded so far. It never goes beyond its limit.
pub struct PreloadProgress {
    max_preload_bytes: u64,
    bytes_preloaded: u64,
}

impl PreloadProgress {
    #[verifier::type_invariant]
    spec fn within_limit(self) -> bool {
        self.bytes_preloaded <= self.max_preload_bytes
    }

    /// The number of bytes this run may preload.
    pub closed spec fn limit(self) -> u64 {
        self.max_preload_bytes
    }

    /// The number of bytes preloaded so far.
    pub closed spec fn preloaded(self) -> u64 {
        self.bytes_preloaded
    }

    /// The length of the next region: what is left, up to `MAX_REGION_SIZE`.
    pub open spec fn next_len(self) -> int {
        min(MAX_REGION_SIZE as int, self.limit() - self.preloaded())
    }

    /// A run that has preloaded nothing yet.
    pub fn new(max_preload_bytes: u64) -> (r: Self)
        ensures
            r.limit() == max_preload_bytes,
            r.preloaded() == 0,
    {
        PreloadProgress { max_preload_bytes, bytes_preloaded: 0 }
    }

    /// The number of bytes preloaded so far, which is never above the limit.
    pub fn bytes_preloaded(&self) -> (r: u64)
        ensures
            r == self.preloaded(),
            r <= self.limit(),
    {
        proof {
            use_type_invariant(self);
        }
        self.bytes_preloaded
    }

    /// The region to load next, as offset and length; `None` once the limit
    /// is reached.
    pub fn next_region(&self) -> (r: Option<(u64, u64)>)
        ensures
            self.preloaded() <= self.limit(),
            self.preloaded() == self.limit() ==> r is None,
            self.preloaded() < self.limit() ==> r == Some(
                (self.preloaded(), self.next_len() as u64),
            ),
    {
        proof {
            use_type_invariant(self);
        }
        if self.bytes_preloaded == self.max_preload_bytes {
            None
        } else {
            let left = self.max_preload_bytes - self.bytes_preloaded;
            let len = if left < MAX_REGION_SIZE {
                left
            } else {
                MAX_REGION_SIZE
            };
            Some((self.bytes_preloaded, len))
        }
    }

    /// Records that the region `next_region` gave has been loaded.
    pub fn advance(&mut self)
        ensures
            final(self).limit() == old(self).limit(),
            final(self).preloaded() == old(self).preloaded() + old(self).next_len(),
            final(self).preloaded() <= final(self).limit(),
    {
        proof {
            use_type_invariant(&*self);
        }
        let left = self.max_preload_bytes - self.bytes_preloaded;
        let len = if left < MAX_REGION_SIZE {
            left
        } else {
            MAX_REGION_SIZE
        };
        self.bytes_preloaded = self.bytes_preloaded + len;
    }

    /// The statistics of the run after `elapsed_secs` seconds: the bytes
    /// preloaded, and the throughput in whole MB/s (0 where under a second
    /// passed, `u32::MAX` where it does not fit).
    pub fn stats(&self, elapsed_secs: u64) -> (r: PreloadStats)
        ensures
            r.bytes_preloaded == self.preloaded(),
            r.bytes_preloaded <= self.limit(),
            r.datarate_mbs as int == if elapsed_secs == 0 {
                0
            } else {
                min(u32::MAX as int, self.preloaded() as int / MIB as int / elapsed_secs as int)
            },
    {
        proof {
            use_type_invariant(self);
        }
        let rate: u64 = if elapsed_secs == 0 {
            0
        } else {
            self.bytes_preloaded / MIB / elapsed_secs
        };
        let datarate_mbs: u32 = if rate <= u32::MAX as u64 {
            rate as u32
        } else {
            u32::MAX
        };
        PreloadStats { bytes_preloaded: self.bytes_preloaded, datarate_mbs }
    }
}

/// A running preloader: it holds the handle `H` of its worker until the
/// worker is stopped, which can happen only once.
pub struct ImageDataPreloader<H> {
    handle: Option<H>,
    max_preload_bytes: u64,
}

/// What stopping a preloader whose worker handle is `handle` returns: the
/// handle to join, or an error once it has been taken.
pub open spec fn stop_result<H>(handle: Option<H>) -> Result<H, HibernateError> {
    match handle {
        Some(h) => Ok(h),
        None => Err(HibernateError::PreloaderStoppedError()),
    }
}

impl<H> ImageDataPreloader<H> {
    /// The handle of the worker, while it has not been stopped.
    pub closed spec fn worker(self) -> Option<H> {
        self.handle
    }

    /// The number of bytes the worker may preload.
    pub closed spec fn limit(self) -> u64 {
        self.max_preload_bytes
    }

    /// A preloader whose worker, with handle `handle`, may load up to
    /// `max_preload_bytes` bytes.
    pub fn new(handle: H, max_preload_bytes: u64) -> (r: Self)
        ensures
            r.worker() == Some(handle),
            r.limit() == max_preload_bytes,
    {
        ImageDataPreloader { handle: Some(handle), max_preload_bytes }
    }

    /// The number of bytes the worker may preload.
    pub fn max_preload_bytes(&self) -> (r: u64)
        ensures
            r == self.limit(),
    {
        self.max_preload_bytes
    }

    /// Stops the preloader: hands out the worker's handle, to be signalled
    /// and joined, the first time; reports an error on every later call.
    pub fn stop(&mut self) -> (r: Result<H, HibernateError>)
        ensures
            r == stop_result(old(self).worker()),
            final(self).worker() is None,
            final(self).limit() == old(self).limit(),
    {
        match self.handle.take() {
            Some(h) => Ok(h),
            None => Err(HibernateError::PreloaderStoppedError()),
        }
    }
}

/// Stopping is idempotent: once `stop` has taken the worker's handle (it
/// always leaves none behind), stopping again reports an error and hands out
/// no handle.
pub proof fn lemma_second_stop_reports_error<H>(stopped: ImageDataPreloader<H>)
    requires
        stopped.worker() is None,
    ensures
        stop_result(stopped.worker()) == Err::<H, HibernateError>(
            HibernateError::PreloaderStoppedError(),
        ),
{
}

} // verus!
