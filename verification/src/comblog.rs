//! The combinator: an ordered collection of destination adapters behind one
//! registration point. It reports the most verbose threshold among its
//! adapters, so that no record some adapter would accept is discarded early,
//! and fans every record out to every adapter in order, each re-checking its
//! own threshold and filters.

use vstd::prelude::*;

use crate::config::Config;
use crate::config::ConfigV;
use crate::level::filter_ord;
use crate::level::LevelFilter;
use crate::record::LogRecord;
use crate::record::RecordV;
use crate::simplelog::SimpleLogger;
use crate::sinks::LogError;
use crate::termlog::TermLogger;
use crate::testlog::test_logged;
use crate::testlog::TestLogger;
use crate::writelog::write_logged;
use crate::writelog::WriteLogger;

verus! {

/// The common face of the loggers: the threshold and configuration they
/// report to a combinator or to a registration point.
pub trait SharedLogger {
    /// The threshold this logger reports.
    spec fn spec_level(&self) -> LevelFilter;

    /// The configuration this logger reports, when it has one.
    spec fn spec_config(&self) -> Option<ConfigV>;

    /// The threshold this logger reports.
    fn level(&self) -> (r: LevelFilter)
        ensures
            r == self.spec_level(),
    ;

    /// The configuration this logger reports.
    fn config(&self) -> (r: Option<&Config>)
        ensures
            match r {
                Some(c) => self.spec_config() == Some(c@),
                None => self.spec_config() is None,
            },
    ;
}

impl SharedLogger for SimpleLogger {
    open spec fn spec_level(&self) -> LevelFilter {
        self.level
    }

    open spec fn spec_config(&self) -> Option<ConfigV> {
        Some(self.config@)
    }

    fn level(&self) -> (r: LevelFilter) {
        self.level
    }

    fn config(&self) -> (r: Option<&Config>) {
        Some(&self.config)
    }
}

impl SharedLogger for WriteLogger {
    open spec fn spec_level(&self) -> LevelFilter {
        self.level
    }

    open spec fn spec_config(&self) -> Option<ConfigV> {
        Some(self.config@)
    }

    fn level(&self) -> (r: LevelFilter) {
        self.level
    }

    fn config(&self) -> (r: Option<&Config>) {
        Some(&self.config)
    }
}

impl SharedLogger for TermLogger {
    open spec fn spec_level(&self) -> LevelFilter {
        self.level
    }

    open spec fn spec_config(&self) -> Option<ConfigV> {
        Some(self.config@)
    }

    fn level(&self) -> (r: LevelFilter) {
        self.level
    }

    fn config(&self) -> (r: Option<&Config>) {
        Some(&self.config)
    }
}

impl SharedLogger for TestLogger {
    open spec fn spec_level(&self) -> LevelFilter {
        self.level
    }

    open spec fn spec_config(&self) -> Option<ConfigV> {
        Some(self.config@)
    }

    fn level(&self) -> (r: LevelFilter) {
        self.level
    }

    fn config(&self) -> (r: Option<&Config>) {
        Some(&self.config)
    }
}

/// One destination adapter, of any of the four kinds.
pub enum Adapter {
    Simple(SimpleLogger),
    Write(WriteLogger),
    Term(TermLogger),
    Test(TestLogger),
}

/// The threshold an adapter reports.
pub open spec fn adapter_level(a: Adapter) -> LevelFilter {
    match a {
        Adapter::Simple(l) => l.level,
        Adapter::Write(l) => l.level,
        Adapter::Term(l) => l.level,
        Adapter::Test(l) => l.level,
    }
}

/// The configuration an adapter holds.
pub open spec fn adapter_config(a: Adapter) -> ConfigV {
    match a {
        Adapter::Simple(l) => l.config@,
        Adapter::Write(l) => l.config@,
        Adapter::Term(l) => l.config@,
        Adapter::Test(l) => l.config@,
    }
}

/// What delivering one record does to an adapter: its kind, threshold and
/// configuration are untouched, and a capture or write adapter's sink is
/// updated per its own delivery relation.
pub open spec fn adapter_logged(pre: Adapter, post: Adapter, rv: RecordV) -> bool {
    adapter_level(post) == adapter_level(pre) && adapter_config(post) == adapter_config(pre)
        && match (pre, post) {
        (Adapter::Simple(_), Adapter::Simple(_)) => true,
        (Adapter::Write(w0), Adapter::Write(w1)) => write_logged(w0, w1, rv),
        (Adapter::Term(_), Adapter::Term(_)) => true,
        (Adapter::Test(t0), Adapter::Test(t1)) => test_logged(t0, t1, rv),
        _ => false,
    }
}

impl Adapter {
    /// The threshold this adapter reports.
    pub fn level(&self) -> (r: LevelFilter)
        ensures
            r == adapter_level(*self),
    {
        match self {
            Adapter::Simple(l) => l.level,
            Adapter::Write(l) => l.level,
            Adapter::Term(l) => l.level,
            Adapter::Test(l) => l.level,
        }
    }

    /// The configuration this adapter holds.
    pub fn config(&self) -> (r: &Config)
        ensures
            r@ == adapter_config(*self),
    {
        match self {
            Adapter::Simple(l) => &l.config,
            Adapter::Write(l) => &l.config,
            Adapter::Term(l) => &l.config,
            Adapter::Test(l) => &l.config,
        }
    }

    /// Deliver one record to this adapter, best-effort.
    pub fn log(&mut self, record: &LogRecord)
        ensures
            adapter_logged(*old(self), *final(self), record@),
    {
        match self {
            Adapter::Simple(l) => l.log(record),
            Adapter::Write(l) => l.log(record),
            Adapter::Term(l) => l.log(record),
            Adapter::Test(l) => l.log(record),
        }
    }

    /// Flush this adapter's sink; threshold and configuration are
    /// untouched.
    pub fn flush(&mut self)
        ensures
            adapter_level(*final(self)) == adapter_level(*old(self)),
            adapter_config(*final(self)) == adapter_config(*old(self)),
    {
        match self {
            Adapter::Simple(l) => l.flush(),
            Adapter::Write(l) => {
                let _ = l.flush();
            },
            Adapter::Term(l) => l.flush(),
            Adapter::Test(l) => l.flush(),
        }
    }
}

/// The most verbose threshold among the adapters', `Off` for none.
pub open spec fn max_level_of(s: Seq<Adapter>) -> LevelFilter
    decreases s.len(),
{
    if s.len() == 0 {
        LevelFilter::Off
    } else {
        let rest = max_level_of(s.drop_last());
        if filter_ord(adapter_level(s.last())) >= filter_ord(rest) {
            adapter_level(s.last())
        } else {
            rest
        }
    }
}

/// An ordered collection of adapters behind one registration point: every
/// record is fanned out to every adapter, in order, regardless of any
/// adapter's own outcome.
pub struct CombinedLogger {
    /// The adapters, in delivery order.
    pub loggers: Vec<Adapter>,
}

impl CombinedLogger {
    /// A combinator over the given adapters.
    pub fn new(loggers: Vec<Adapter>) -> (r: CombinedLogger)
        ensures
            r.loggers@ == loggers@,
    {
        CombinedLogger { loggers }
    }

    /// The most verbose threshold among the adapters': a record is
    /// discarded here only when every adapter would discard it, and final
    /// accept or reject is re-checked per adapter on delivery.
    pub fn level(&self) -> (r: LevelFilter)
        ensures
            r == max_level_of(self.loggers@),
    {
        let n = self.loggers.len();
        let mut r = LevelFilter::Off;
        let mut i: usize = 0;
        proof {
            assert(self.loggers@.take(0) =~= Seq::<Adapter>::empty());
        }
        while i < n
            invariant
                i <= n,
                n == self.loggers@.len(),
                r == max_level_of(self.loggers@.take(i as int)),
            decreases n - i,
        {
            proof {
                assert(self.loggers@.take(i as int + 1).drop_last() =~= self.loggers@.take(
                    i as int,
                ));
                assert(self.loggers@.take(i as int + 1).last() == self.loggers@[i as int]);
            }
            r = self.loggers[i].level().max_verbosity(r);
            i = i + 1;
            proof {
                assert(r == max_level_of(self.loggers@.take(i as int)));
            }
        }
        proof {
            assert(self.loggers@.take(n as int) =~= self.loggers@);
        }
        r
    }

    /// Deliver one record to every adapter, in order; one adapter's own
    /// filtering or failure does not block delivery to the others.
    pub fn log(&mut self, record: &LogRecord)
        ensures
            final(self).loggers@.len() == old(self).loggers@.len(),
            forall|i: int|
                0 <= i < old(self).loggers@.len() ==> adapter_logged(
                    old(self).loggers@[i],
                    #[trigger] final(self).loggers@[i],
                    record@,
                ),
    {
        let n = self.loggers.len();
        let mut i: usize = 0;
        while i < n
            invariant
                i <= n,
                n == self.loggers@.len(),
                self.loggers@.len() == old(self).loggers@.len(),
                forall|j: int|
                    0 <= j < i as int ==> adapter_logged(
                        old(self).loggers@[j],
                        #[trigger] self.loggers@[j],
                        record@,
                    ),
                forall|j: int|
                    i as int <= j < n ==> #[trigger] self.loggers@[j] == old(self).loggers@[j],
            decreases n - i,
        {
            let a = &mut self.loggers[i];
            a.log(record);
            i = i + 1;
        }
    }

    /// Flush every adapter, in order.
    pub fn flush(&mut self)
        ensures
            final(self).loggers@.len() == old(self).loggers@.len(),
            forall|i: int|
                0 <= i < old(self).loggers@.len() ==> adapter_level(
                    #[trigger] final(self).loggers@[i],
                ) == adapter_level(old(self).loggers@[i]) && adapter_config(
                    final(self).loggers@[i],
                ) == adapter_config(old(self).loggers@[i]),
    {
        let n = self.loggers.len();
        let mut i: usize = 0;
        while i < n
            invariant
                i <= n,
                n == self.loggers@.len(),
                self.loggers@.len() == old(self).loggers@.len(),
                forall|j: int|
                    0 <= j < i as int ==> adapter_level(#[trigger] self.loggers@[j])
                        == adapter_level(old(self).loggers@[j]) && adapter_config(
                        self.loggers@[j],
                    ) == adapter_config(old(self).loggers@[j]),
                forall|j: int|
                    i as int <= j < n ==> #[trigger] self.loggers@[j] == old(self).loggers@[j],
            decreases n - i,
        {
            let a = &mut self.loggers[i];
            a.flush();
            i = i + 1;
        }
    }

    /// A combinator reports no configuration of its own.
    pub fn config(&self) -> (r: Option<&Config>)
        ensures
            r is None,
    {
        None
    }

    /// Deliver one record and surface no error: delivery through a
    /// combinator is best-effort per adapter.
    pub fn try_log(&mut self, record: &LogRecord) -> (r: Result<(), LogError>)
        ensures
            final(self).loggers@.len() == old(self).loggers@.len(),
            forall|i: int|
                0 <= i < old(self).loggers@.len() ==> adapter_logged(
                    old(self).loggers@[i],
                    #[trigger] final(self).loggers@[i],
                    record@,
                ),
            r is Ok,
    {
        self.log(record);
        Ok(())
    }
}

impl SharedLogger for CombinedLogger {
    open spec fn spec_level(&self) -> LevelFilter {
        max_level_of(self.loggers@)
    }

    open spec fn spec_config(&self) -> Option<ConfigV> {
        None
    }

    fn level(&self) -> (r: LevelFilter) {
        self.level()
    }

    fn config(&self) -> (r: Option<&Config>) {
        None
    }
}

} // verus!
