//! A document as rows of text.

use std::ops::Range;
use vstd::prelude::*;
use vstd::string::StringExecFns;
use crate::text::{on_boundary, push_char, replace_range, spliced};

verus! {

/// One row of a document. The text of a row holds no newline of its own
/// when it comes from [`DocumentOperations::read_from`].
#[derive(Debug, Clone)]
pub struct Row {
    pub row: String,
}

impl Default for Row {
    fn default() -> (r: Self)
        ensures
            r.row@ == Seq::<char>::empty(),
    {
        Self { row: String::new() }
    }
}

impl Row {
    /// The row that holds `row`.
    pub fn new(row: String) -> (r: Self)
        ensures
            r.row == row,
    {
        Self { row }
    }
}

/// A document: its name, its rows and the path it was read from.
#[derive(Debug, Clone)]
pub struct Buffer {
    pub name: String,
    buf: Vec<Row>,
    pub path: String,
}

/// The texts of a list of rows.
pub open spec fn texts(rows: Seq<Row>) -> Seq<Seq<char>> {
    rows.map_values(|r: Row| r.row@)
}

/// The rows of a content: the texts between its newlines. A content of `n`
/// newlines has `n + 1` rows, of which any may be empty.
pub open spec fn split_rows(content: Seq<char>) -> Seq<Seq<char>>
    decreases content.len(),
{
    if content.len() == 0 {
        seq![Seq::<char>::empty()]
    } else {
        let before = split_rows(content.drop_last());
        if content.last() == '\n' {
            before.push(Seq::<char>::empty())
        } else {
            before.update(before.len() - 1, before.last().push(content.last()))
        }
    }
}

/// The content of a list of rows: each row followed by a newline.
pub open spec fn joined(rows: Seq<Seq<char>>) -> Seq<char>
    decreases rows.len(),
{
    if rows.len() == 0 {
        Seq::<char>::empty()
    } else {
        joined(rows.drop_last()) + rows.last() + seq!['\n']
    }
}

/// The name of the file that a path leads to: what follows its last slash,
/// or all of it where it has none.
pub open spec fn file_name(path: Seq<char>) -> Seq<char>
    decreases path.len(),
{
    if path.len() == 0 {
        Seq::<char>::empty()
    } else if path.last() == '/' {
        Seq::<char>::empty()
    } else {
        file_name(path.drop_last()).push(path.last())
    }
}

impl Default for Buffer {
    fn default() -> (b: Self)
        ensures
            b.name_text() == Seq::<char>::empty(),
            b.path_text() == Seq::<char>::empty(),
            b.rows() == Seq::<Seq<char>>::empty(),
    {
        let b = Self { name: String::new(), buf: Vec::new(), path: String::new() };
        assert(b.rows() =~= Seq::<Seq<char>>::empty());
        b
    }
}

/// A document that can be taken from and turned into the content of a file.
pub trait DocumentOperations: Sized {
    /// The texts of the document's rows.
    spec fn lines(&self) -> Seq<Seq<char>>;

    /// The rows of a file's content.
    fn read_from(content: &str) -> (rows: Vec<Row>)
        ensures
            texts(rows@) == split_rows(content@),
    ;

    /// The content to write to the document's file.
    fn write_to(&self) -> (content: String)
        ensures
            content@ == joined(self.lines()),
    ;
}

/// The operations on rows that everything else is built from.
pub trait BufferBasicApi: Sized {
    /// The texts of the rows.
    spec fn rows(&self) -> Seq<Seq<char>>;

    /// Puts an empty row at `row`; the rows from there on move down by one.
    fn create_row(&mut self, row: usize)
        requires
            row <= old(self).rows().len(),
        ensures
            final(self).rows() == old(self).rows().insert(row as int, Seq::<char>::empty()),
    ;

    /// Puts `substr` into the row at byte position `idx`.
    fn insert_to_row(&mut self, row: usize, idx: usize, substr: &str)
        requires
            row < old(self).rows().len(),
            on_boundary(old(self).rows()[row as int], idx as int),
        ensures
            final(self).rows() == old(self).rows().update(
                row as int,
                spliced(old(self).rows()[row as int], idx as int, idx as int, substr@),
            ),
    ;

    /// Takes the row out; the rows after it move up by one.
    fn delete_row(&mut self, row: usize)
        requires
            row < old(self).rows().len(),
        ensures
            final(self).rows() == old(self).rows().remove(row as int),
    ;

    /// Takes the bytes of `range` out of the row.
    fn delete_in_row(&mut self, row: usize, range: Range<usize>)
        requires
            row < old(self).rows().len(),
            range.start <= range.end,
            on_boundary(old(self).rows()[row as int], range.start as int),
            on_boundary(old(self).rows()[row as int], range.end as int),
        ensures
            final(self).rows() == old(self).rows().update(
                row as int,
                spliced(
                    old(self).rows()[row as int],
                    range.start as int,
                    range.end as int,
                    Seq::<char>::empty(),
                ),
            ),
    ;

    /// A copy of the row.
    fn read_row(&self, row: usize) -> (r: Row)
        requires
            row < self.rows().len(),
        ensures
            r.row@ == self.rows()[row as int],
    ;

    /// A copy of the whole.
    fn read_buf(&self) -> (r: Self)
        ensures
            r.rows() == self.rows(),
    ;

    /// The rows as one text: each row followed by a newline.
    fn read_as_string(&self) -> (s: String)
        ensures
            s@ == joined(self.rows()),
    ;
}

/// The operations that the methods of an editor call.
pub trait BufferApi: BufferBasicApi {

}

impl Buffer {
    /// The text of the document's name.
    pub closed spec fn name_text(&self) -> Seq<char> {
        self.name@
    }

    /// The text of the document's path.
    pub closed spec fn path_text(&self) -> Seq<char> {
        self.path@
    }

    /// The document at `path` whose file holds `content`. Its name is the
    /// file's name; a path that names no file gives no document.
    pub fn new(path: &str, content: &str) -> (r: Option<Self>)
        ensures
            match r {
                Some(b) => {
                    &&& file_name(path@).len() > 0
                    &&& b.name_text() == file_name(path@)
                    &&& b.path_text() == path@
                    &&& b.rows() == split_rows(content@)
                },
                None => file_name(path@).len() == 0,
            },
    {
        let name = Self::name_of(path);
        if name.as_str().is_empty() {
            return None;
        }
        let buf = Self::read_from(content);
        Some(Self { name, buf, path: path.to_owned() })
    }

    /// The name of the file that `path` leads to.
    pub fn name_of(path: &str) -> (name: String)
        ensures
            name@ == file_name(path@),
    {
        let mut name = String::new();
        for c in it: path.chars()
            invariant
                it.seq() == path@,
                name@ == file_name(path@.subrange(0, it.index() as int)),
        {
            let ghost seen = path@.subrange(0, it.index() + 1);
            assert(seen.drop_last() =~= path@.subrange(0, it.index() as int));
            if c == '/' {
                name = String::new();
            } else {
                push_char(&mut name, c);
            }
        }
        assert(path@.subrange(0, path@.len() as int) =~= path@);
        name
    }

    /// The rows of the document.
    pub fn row_list(&self) -> (rows: &Vec<Row>)
        ensures
            texts(rows@) == self.rows(),
    {
        &self.buf
    }

    /// The number of rows.
    pub fn row_count(&self) -> (n: usize)
        ensures
            n == self.rows().len(),
    {
        self.buf.len()
    }

    /// Whether `idx` is a byte position of the row at which it can be cut.
    pub fn can_cut(&self, row: usize, idx: usize) -> (b: bool)
        ensures
            b == (row < self.rows().len() && on_boundary(self.rows()[row as int], idx as int)),
    {
        if row < self.buf.len() {
            let text = self.buf[row].row.as_str();
            assert(self.rows()[row as int] == text@);
            idx <= text.as_bytes().len() && text.is_char_boundary(idx)
        } else {
            false
        }
    }
}

impl DocumentOperations for Buffer {
    open spec fn lines(&self) -> Seq<Seq<char>> {
        self.rows()
    }

    fn read_from(content: &str) -> (rows: Vec<Row>) {
        let mut rows: Vec<Row> = Vec::new();
        let mut current = String::new();
        for c in it: content.chars()
            invariant
                it.seq() == content@,
                texts(rows@).push(current@) == split_rows(content@.subrange(0, it.index() as int)),
        {
            let ghost seen = content@.subrange(0, it.index() + 1);
            let ghost done = texts(rows@);
            assert(seen.drop_last() =~= content@.subrange(0, it.index() as int));
            if c == '\n' {
                rows.push(Row::new(current));
                current = String::new();
                assert(texts(rows@) =~= split_rows(seen.drop_last()));
            } else {
                push_char(&mut current, c);
                assert(texts(rows@).push(current@) =~= split_rows(seen));
            }
        }
        assert(content@.subrange(0, content@.len() as int) =~= content@);
        let ghost done = texts(rows@);
        rows.push(Row::new(current));
        assert(texts(rows@) =~= done.push(current@));
        rows
    }

    fn write_to(&self) -> (content: String) {
        self.read_as_string()
    }
}

impl BufferBasicApi for Buffer {
    closed spec fn rows(&self) -> Seq<Seq<char>> {
        texts(self.buf@)
    }

    fn create_row(&mut self, row: usize) {
        self.buf.insert(row, Row::default());
        assert(self.rows() =~= old(self).rows().insert(row as int, Seq::<char>::empty()));
    }

    fn insert_to_row(&mut self, row: usize, idx: usize, substr: &str) {
        replace_range(&mut self.buf[row].row, idx, idx, substr);
        assert(self.rows() =~= old(self).rows().update(
            row as int,
            spliced(old(self).rows()[row as int], idx as int, idx as int, substr@),
        ));
    }

    fn delete_row(&mut self, row: usize) {
        self.buf.remove(row);
        assert(self.rows() =~= old(self).rows().remove(row as int));
    }

    fn delete_in_row(&mut self, row: usize, range: Range<usize>) {
        replace_range(&mut self.buf[row].row, range.start, range.end, "");
        proof {
            reveal_strlit("");
            assert(""@ =~= Seq::<char>::empty());
        }
        assert(self.rows() =~= old(self).rows().update(
            row as int,
            spliced(
                old(self).rows()[row as int],
                range.start as int,
                range.end as int,
                Seq::<char>::empty(),
            ),
        ));
    }

    fn read_row(&self, row: usize) -> (r: Row) {
        Row::new(self.buf[row].row.clone())
    }

    fn read_buf(&self) -> (r: Self) {
        let mut buf: Vec<Row> = Vec::new();
        let mut i: usize = 0;
        while i < self.buf.len()
            invariant
                i <= self.buf@.len(),
                texts(buf@) == texts(self.buf@).subrange(0, i as int),
            decreases self.buf@.len() - i,
        {
            let ghost copied = texts(buf@);
            buf.push(Row::new(self.buf[i].row.clone()));
            assert(texts(buf@) =~= copied.push(self.buf@[i as int].row@));
            assert(texts(buf@) =~= texts(self.buf@).subrange(0, i + 1));
            i += 1;
        }
        assert(texts(self.buf@).subrange(0, i as int) =~= texts(self.buf@));
        Self { name: self.name.clone(), buf, path: self.path.clone() }
    }

    fn read_as_string(&self) -> (s: String) {
        let mut res = String::new();
        let mut i: usize = 0;
        while i < self.buf.len()
            invariant
                i <= self.buf@.len(),
                res@ == joined(texts(self.buf@).subrange(0, i as int)),
            decreases self.buf@.len() - i,
        {
            let ghost head = texts(self.buf@).subrange(0, i + 1);
            assert(head.drop_last() =~= texts(self.buf@).subrange(0, i as int));
            res.append(self.buf[i].row.as_str());
            push_char(&mut res, '\n');
            assert(res@ =~= joined(head));
            i += 1;
        }
        assert(texts(self.buf@).subrange(0, i as int) =~= texts(self.buf@));
        res
    }
}

impl BufferApi for Buffer {

}

/// Whether no row holds a newline of its own.
pub open spec fn plain_rows(rows: Seq<Seq<char>>) -> bool {
    forall|i: int, j: int| 0 <= i < rows.len() && 0 <= j < rows[i].len() ==> rows[i][j] != '\n'
}

/// A content always has a row, if only an empty one.
pub proof fn content_has_a_row(content: Seq<char>)
    ensures
        split_rows(content).len() > 0,
    decreases content.len(),
{
    if content.len() > 0 {
        content_has_a_row(content.drop_last());
    }
}

/// The rows of a content hold no newline: the newlines are what parts them.
pub proof fn read_rows_are_plain(content: Seq<char>)
    ensures
        plain_rows(split_rows(content)),
    decreases content.len(),
{
    if content.len() > 0 {
        let before = split_rows(content.drop_last());
        read_rows_are_plain(content.drop_last());
        content_has_a_row(content.drop_last());
        let rows = split_rows(content);
        assert forall|i: int, j: int| 0 <= i < rows.len() && 0 <= j < rows[i].len() implies rows[i][j]
            != '\n' by {
            if i < before.len() && j < before[i].len() {
                assert(before[i][j] != '\n');
            }
        }
    }
}

/// Text without a newline that is added to a content lengthens its last row.
pub proof fn text_lengthens_last_row(content: Seq<char>, text: Seq<char>)
    requires
        forall|j: int| 0 <= j < text.len() ==> text[j] != '\n',
    ensures
        split_rows(content).len() > 0,
        split_rows(content + text) == split_rows(content).update(
            split_rows(content).len() - 1,
            split_rows(content).last() + text,
        ),
    decreases text.len(),
{
    content_has_a_row(content);
    let rows = split_rows(content);
    if text.len() == 0 {
        assert(content + text =~= content);
        assert(rows.last() + text =~= rows.last());
        assert(rows.update(rows.len() - 1, rows.last()) =~= rows);
    } else {
        let shorter = text.drop_last();
        text_lengthens_last_row(content, shorter);
        assert((content + text).drop_last() =~= content + shorter);
        assert((content + text).last() == text.last());
        assert((rows.last() + shorter).push(text.last()) =~= rows.last() + text);
        assert(split_rows(content + text) =~= rows.update(rows.len() - 1, rows.last() + text));
    }
}

/// Reading what was written gives the rows back, and one empty row after
/// them: every row is written with a newline, and the last newline opens a
/// row of its own.
pub proof fn written_rows_read_back(rows: Seq<Seq<char>>)
    requires
        plain_rows(rows),
    ensures
        split_rows(joined(rows)) == rows.push(Seq::<char>::empty()),
    decreases rows.len(),
{
    if rows.len() == 0 {
        assert(split_rows(joined(rows)) =~= rows.push(Seq::<char>::empty()));
    } else {
        let head = rows.drop_last();
        let last = rows.last();
        assert(plain_rows(head)) by {
            assert forall|i: int, j: int|
                0 <= i < head.len() && 0 <= j < head[i].len() implies head[i][j] != '\n' by {
                assert(rows[i][j] != '\n');
            }
        }
        written_rows_read_back(head);
        assert forall|j: int| 0 <= j < last.len() implies last[j] != '\n' by {
            assert(rows[rows.len() - 1][j] != '\n');
        }
        text_lengthens_last_row(joined(head), last);
        let before = joined(head) + last;
        assert(split_rows(before) =~= rows) by {
            assert(Seq::<char>::empty() + last =~= last);
        }
        let content = joined(rows);
        assert(content =~= before.push('\n'));
        assert(content.drop_last() =~= before);
        assert(split_rows(content) =~= rows.push(Seq::<char>::empty()));
    }
}

} // verus!
