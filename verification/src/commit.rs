use crate::text::split_n;
use vstd::prelude::*;
use vstd::string::*;

verus! {

/// Mathematical view of one per-file change-statistics row.
pub struct StatView {
    pub added: Seq<char>,
    pub removed: Seq<char>,
    pub name: Seq<char>,
}

/// Mathematical view of a parsed commit-metadata record.
pub struct CommitView {
    pub author_name: Seq<char>,
    pub author_email: Seq<char>,
    pub date: Seq<char>,
    pub subject: Seq<char>,
    pub body: Seq<char>,
    pub file_stats: Seq<StatView>,
}

/// One per-file line-change summary: lines added (possibly a non-numeric
/// placeholder for binary files), lines removed, and the file path.
#[derive(Debug)]
pub struct FileStat {
    added: String,
    removed: String,
    name: String,
}

impl View for FileStat {
    type V = StatView;

    closed spec fn view(&self) -> StatView {
        StatView { added: self.added@, removed: self.removed@, name: self.name@ }
    }
}

impl DeepView for FileStat {
    type V = StatView;

    open spec fn deep_view(&self) -> StatView {
        self.view()
    }
}

impl FileStat {
    pub fn get_added(&self) -> (r: &String)
        ensures
            r@ == self@.added,
    {
        &self.added
    }

    pub fn get_removed(&self) -> (r: &String)
        ensures
            r@ == self@.removed,
    {
        &self.removed
    }

    pub fn get_name(&self) -> (r: &String)
        ensures
            r@ == self@.name,
    {
        &self.name
    }
}

/// A parsed snapshot of one commit: author, date, subject, body and the
/// per-file change statistics, in the order the commit query emitted them.
#[derive(Debug)]
pub struct Commit {
    author_name: String,
    author_email: String,
    date: String,
    subject: String,
    body: String,
    file_stats: Vec<FileStat>,
}

impl View for Commit {
    type V = CommitView;

    closed spec fn view(&self) -> CommitView {
        CommitView {
            author_name: self.author_name@,
            author_email: self.author_email@,
            date: self.date@,
            subject: self.subject@,
            body: self.body@,
            file_stats: self.file_stats.deep_view(),
        }
    }
}

/// The raw query output split at the first five record separators: the five
/// metadata fields and, last, the unsplit numstat region.
pub open spec fn commit_fields(s: Seq<char>) -> Seq<Seq<char>> {
    split_n(s, '\u{1e}', 5)
}

/// One numstat line parsed into its three tab-separated fields, or nothing
/// when the line does not have exactly three.
pub open spec fn parse_stat_line(line: Seq<char>) -> Option<StatView> {
    let t = split_n(line, '\t', line.len());
    if t.len() == 3 {
        Some(StatView { added: t[0], removed: t[1], name: t[2] })
    } else {
        None
    }
}

/// All numstat lines parsed in order; empty lines are skipped; one malformed
/// line fails the whole parse.
pub open spec fn parse_stats(lines: Seq<Seq<char>>) -> Option<Seq<StatView>>
    decreases lines.len(),
{
    if lines.len() == 0 {
        Some(Seq::<StatView>::empty())
    } else if lines[0].len() == 0 {
        parse_stats(lines.skip(1))
    } else {
        match parse_stat_line(lines[0]) {
            Some(st) => match parse_stats(lines.skip(1)) {
                Some(r) => Some(seq![st] + r),
                None => None,
            },
            None => None,
        }
    }
}

/// What the raw output of the commit query parses to: the five
/// record-separator-delimited metadata fields followed by the numstat lines,
/// or nothing when a separator is missing or a numstat line is malformed.
pub open spec fn parse_commit(s: Seq<char>) -> Option<CommitView> {
    let parts = commit_fields(s);
    if parts.len() < 6 {
        None
    } else {
        match parse_stats(split_n(parts[5], '\n', parts[5].len())) {
            Some(stats) => Some(
                CommitView {
                    author_name: parts[0],
                    author_email: parts[1],
                    date: parts[2],
                    subject: parts[3],
                    body: parts[4],
                    file_stats: stats,
                },
            ),
            None => None,
        }
    }
}

/// True when the parse fails for want of the five metadata fields (as opposed
/// to a malformed numstat line).
pub open spec fn missing_fields(s: Seq<char>) -> bool {
    commit_fields(s).len() < 6
}

/// The error description the parser returns for a raw text it rejects.
pub open spec fn parse_error_message(s: Seq<char>) -> Seq<char> {
    if missing_fields(s) {
        "Invalid commit data: expected author name, author email, author date, subject and body delimited by record separators"@
    } else {
        "Invalid commit data: malformed numstat line, expected added count, removed count and file name delimited by tabs"@
    }
}

impl Commit {
    /// Parse the raw output of the commit query.  Succeeds exactly on texts
    /// with at least five record separators whose numstat region holds only
    /// well-formed (or empty) lines, and otherwise returns a description of
    /// what was expected.
    pub fn new(text: &str) -> (r: Result<Commit, String>)
        ensures
            r is Ok <==> parse_commit(text@) is Some,
            r is Ok ==> r->Ok_0@ == parse_commit(text@)->Some_0,
            r is Err ==> r->Err_0@ == parse_error_message(text@),
    {
        let raw_parts = crate::text::split_record(text, '\u{1e}', 5);
        if raw_parts.len() < 6 {
            return Err(
                String::from_str(
                    "Invalid commit data: expected author name, author email, author date, subject and body delimited by record separators",
                ),
            );
        }
        let region: &String = &raw_parts[5];
        let region_len = region.as_str().unicode_len();
        let lines = crate::text::split_record(region.as_str(), '\n', region_len);
        let ghost lines_v: Seq<Seq<char>> = lines.deep_view();
        proof {
            assert(commit_fields(text@) == raw_parts.deep_view());
            assert(raw_parts.deep_view()[5] == raw_parts@[5]@);
            assert(region@ == commit_fields(text@)[5]);
            assert(!missing_fields(text@));
            assert(lines_v == split_n(
                commit_fields(text@)[5],
                '\n',
                commit_fields(text@)[5].len(),
            ));
        }
        let mut stats: Vec<FileStat> = Vec::new();
        let mut i: usize = 0;
        proof {
            assert(lines_v.skip(0) =~= lines_v);
        }
        while i < lines.len()
            invariant
                i <= lines.len(),
                lines_v == lines.deep_view(),
                commit_fields(text@).len() >= 6,
                lines_v == split_n(
                    commit_fields(text@)[5],
                    '\n',
                    commit_fields(text@)[5].len(),
                ),
                parse_stats(lines_v) == (match parse_stats(lines_v.skip(i as int)) {
                    Some(r) => Some(stats.deep_view() + r),
                    None => None::<Seq<StatView>>,
                }),
            decreases lines.len() - i,
        {
            let line: &String = &lines[i];
            proof {
                assert(lines_v.skip(i as int)[0] == lines_v[i as int]);
                assert(lines_v.skip(i as int).skip(1) =~= lines_v.skip(i as int + 1));
            }
            if !line.as_str().is_empty() {
                let line_len = line.as_str().unicode_len();
                let tabs = crate::text::split_record(line.as_str(), '\t', line_len);
                if tabs.len() != 3 {
                    proof {
                        assert(parse_stat_line(lines_v[i as int]) is None);
                        assert(parse_stats(lines_v.skip(i as int)) is None);
                    }
                    return Err(
                        String::from_str(
                            "Invalid commit data: malformed numstat line, expected added count, removed count and file name delimited by tabs",
                        ),
                    );
                }
                let st = FileStat {
                    added: tabs[0].clone(),
                    removed: tabs[1].clone(),
                    name: tabs[2].clone(),
                };
                let ghost old_stats = stats.deep_view();
                proof {
                    assert(st@ == parse_stat_line(lines_v[i as int])->Some_0);
                }
                stats.push(st);
                proof {
                    assert(stats.deep_view() =~= old_stats.push(st@));
                    assert forall|r: Seq<StatView>|
                        old_stats + (seq![st@] + r) =~= old_stats.push(st@) + r by {}
                }
            }
            i = i + 1;
        }
        proof {
            assert(lines_v.skip(i as int) =~= Seq::<Seq<char>>::empty());
            assert(parse_stats(lines_v.skip(i as int)) == Some(Seq::<StatView>::empty()));
            assert(stats.deep_view() + Seq::<StatView>::empty() =~= stats.deep_view());
        }
        Ok(
            Commit {
                author_name: raw_parts[0].clone(),
                author_email: raw_parts[1].clone(),
                date: raw_parts[2].clone(),
                subject: raw_parts[3].clone(),
                body: raw_parts[4].clone(),
                file_stats: stats,
            },
        )
    }

    pub fn get_author_name(&self) -> (r: &String)
        ensures
            r@ == self@.author_name,
    {
        &self.author_name
    }

    pub fn get_author_email(&self) -> (r: &String)
        ensures
            r@ == self@.author_email,
    {
        &self.author_email
    }

    pub fn get_date(&self) -> (r: &String)
        ensures
            r@ == self@.date,
    {
        &self.date
    }

    pub fn get_subject(&self) -> (r: &String)
        ensures
            r@ == self@.subject,
    {
        &self.subject
    }

    pub fn get_body(&self) -> (r: &String)
        ensures
            r@ == self@.body,
    {
        &self.body
    }

    pub fn get_file_stats(&self) -> (r: &Vec<FileStat>)
        ensures
            r.deep_view() == self@.file_stats,
    {
        &self.file_stats
    }
}

} // verus!
