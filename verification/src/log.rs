use vstd::prelude::*;
use crate::http::method::Method;
use crate::http::request::Request;
use crate::http::request::RequestView;
use crate::http::response::Response;
use crate::http::response::ResponseView;
use crate::middleware::Layer;
use crate::middleware::Service;

verus! {

/// What the logger keeps of a request: its method and its path.
#[derive(Debug)]
pub struct LogEntry {
    pub method: Method,
    pub path: String,
}

impl View for LogEntry {
    type V = (Seq<char>, Seq<char>);

    open spec fn view(&self) -> (Seq<char>, Seq<char>) {
        (self.method@, self.path@)
    }
}

/// The entries of a log as mathematical values, oldest first.
pub open spec fn log_view(entries: Seq<LogEntry>) -> Seq<(Seq<char>, Seq<char>)> {
    entries.map_values(|entry: LogEntry| entry@)
}

/// The logging decorator. `target` names the log.
#[derive(Clone, Copy, Debug)]
pub struct LogLayer {
    pub target: &'static str,
}

/// A service that notes the method and path of each request and hands the
/// request on unchanged. The response of the inner service is returned as it
/// is.
pub struct LogService<S> {
    pub target: &'static str,
    pub service: S,
    pub entries: Vec<LogEntry>,
}

impl LogLayer {
    pub fn new(target: &'static str) -> (layer: LogLayer)
        ensures
            layer.target == target,
    {
        LogLayer { target }
    }
}

impl<S> Layer<S> for LogLayer {
    type Service = LogService<S>;

    open spec fn wraps(&self, inner: S, outer: LogService<S>) -> bool {
        &&& outer.target == self.target
        &&& outer.service == inner
        &&& outer.entries@ == Seq::<LogEntry>::empty()
    }

    fn layer(&self, inner: S) -> (outer: LogService<S>) {
        LogService { target: self.target, service: inner, entries: Vec::new() }
    }
}

impl<S> LogService<S> {
    /// Notes the method and the path of `request`.
    pub fn note(&mut self, request: &Request)
        ensures
            final(self).target == old(self).target,
            final(self).service == old(self).service,
            final(self).entries@.len() == old(self).entries@.len() + 1,
            log_view(final(self).entries@) == log_view(old(self).entries@).push(
                (request@.head.method, request@.head.path),
            ),
    {
        let entry = LogEntry { method: request.method().clone(), path: request.path().to_owned() };
        let ghost before = self.entries@;
        self.entries.push(entry);
        assert(log_view(self.entries@) =~= log_view(before).push(entry@));
    }

    /// Hands out the entries noted so far, oldest first, and starts afresh.
    pub fn drain(&mut self) -> (entries: Vec<LogEntry>)
        ensures
            entries@ == old(self).entries@,
            final(self).entries@ == Seq::<LogEntry>::empty(),
            final(self).target == old(self).target,
            final(self).service == old(self).service,
    {
        let mut entries = Vec::new();
        std::mem::swap(&mut self.entries, &mut entries);
        entries
    }
}

impl<S> Service for LogService<S> where S: Service {
    open spec fn serves(&self, request: RequestView, after: Self, response: ResponseView) -> bool {
        &&& after.target == self.target
        &&& after.entries@.len() == self.entries@.len() + 1
        &&& log_view(after.entries@) == log_view(self.entries@).push(
            (request.head.method, request.head.path),
        )
        &&& self.service.serves(request, after.service, response)
    }

    fn call(&mut self, request: Request) -> (response: Response) {
        self.note(&request);
        self.service.call(request)
    }
}

} // verus!
