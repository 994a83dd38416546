//! What the library has to say: messages for the session log, and notices
//! for whoever watches the build.

use crate::text::lemma_deep_view_push;
use vstd::prelude::*;

verus! {

/// How loud a notice is.
#[derive(Clone, Copy, PartialEq, Eq, Structural, Debug)]
pub enum Level {
    Info,
    Success,
    Warning,
    Error,
}

/// A message for whoever watches the build.
pub struct Notice {
    pub level: Level,
    pub text: String,
}

/// What a `Notice` is, to a contract.
pub struct NoticeModel {
    pub level: Level,
    pub text: Seq<char>,
}

impl DeepView for Notice {
    type V = NoticeModel;

    open spec fn deep_view(&self) -> NoticeModel {
        NoticeModel { level: self.level, text: self.text@ }
    }
}

/// What one step has to say: messages for the session log, and notices for
/// whoever watches, each in order.
pub struct Report {
    pub logs: Vec<String>,
    pub notices: Vec<Notice>,
}

/// What a `Report` is, to a contract.
pub struct ReportModel {
    pub logs: Seq<Seq<char>>,
    pub notices: Seq<NoticeModel>,
}

impl DeepView for Report {
    type V = ReportModel;

    open spec fn deep_view(&self) -> ReportModel {
        ReportModel { logs: self.logs.deep_view(), notices: self.notices.deep_view() }
    }
}

impl ReportModel {
    /// The report that says nothing.
    pub open spec fn empty() -> Self {
        ReportModel { logs: Seq::empty(), notices: Seq::empty() }
    }

    /// The report with one more message for the log.
    pub open spec fn log(self, message: Seq<char>) -> Self {
        ReportModel { logs: self.logs.push(message), ..self }
    }

    /// The report with one more notice.
    pub open spec fn notify(self, level: Level, text: Seq<char>) -> Self {
        ReportModel { notices: self.notices.push(NoticeModel { level, text }), ..self }
    }

    /// The report with one more message, both logged and noticed.
    pub open spec fn say(self, level: Level, text: Seq<char>) -> Self {
        self.log(text).notify(level, text)
    }
}

impl Report {
    /// The report that says nothing.
    pub fn new() -> (r: Report)
        ensures
            r.deep_view() == ReportModel::empty(),
    {
        let r = Report { logs: Vec::new(), notices: Vec::new() };
        assert(r.logs.deep_view() =~= Seq::<Seq<char>>::empty());
        assert(r.notices.deep_view() =~= Seq::<NoticeModel>::empty());
        r
    }

    /// Adds a message for the log.
    pub fn log(&mut self, message: String)
        ensures
            final(self).deep_view() == old(self).deep_view().log(message@),
    {
        let ghost before = self.logs;
        self.logs.push(message);
        proof {
            lemma_deep_view_push(before, self.logs, message);
        }
    }

    /// Adds a notice.
    pub fn notify(&mut self, level: Level, text: String)
        ensures
            final(self).deep_view() == old(self).deep_view().notify(level, text@),
    {
        let ghost before = self.notices.deep_view();
        self.notices.push(Notice { level, text });
        assert(self.notices.deep_view() =~= before.push(NoticeModel { level, text: text@ }));
    }

    /// Adds a message that is both logged and noticed.
    pub fn say(&mut self, level: Level, text: String)
        ensures
            final(self).deep_view() == old(self).deep_view().say(level, text@),
    {
        let copy = text.clone();
        self.log(text);
        self.notify(level, copy);
    }
}

} // verus!
