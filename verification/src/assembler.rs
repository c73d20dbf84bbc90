//! The stream text assembler: turns the fragment extracted from one chunk
//! into emit-ready lines and grows the accumulated message by their text.

use crate::text::{
    chars_of, contains, find_from, first_occurrence, lemma_first_occurrence, occurs_at, text_view,
};
use vstd::prelude::*;
use vstd::string::StringExecFns;

verus! {

/// The two characters that stand for a newline inside a JSON string: a
/// backslash and the letter `n`.
pub open spec fn escaped_newline() -> Seq<char> {
    seq!['\\', 'n']
}

/// A real newline character.
pub open spec fn newline() -> Seq<char> {
    seq!['\n']
}

/// The pieces of `s[from..]` between the occurrences of `sep`, taken from left
/// to right: one more piece than there are separators. An empty separator
/// splits nothing.
pub open spec fn split_on(s: Seq<char>, sep: Seq<char>, from: int) -> Seq<Seq<char>>
    decreases s.len() - from,
{
    let found = first_occurrence(s, sep, from);
    if sep.len() > 0 && found is Some && from <= found->0 && found->0 + sep.len() <= s.len() {
        seq![s.subrange(from, found->0)] + split_on(s, sep, found->0 + sep.len())
    } else {
        seq![s.subrange(from, s.len() as int)]
    }
}

/// `s` without its backslashes.
pub open spec fn strip_backslashes(s: Seq<char>) -> Seq<char> {
    s.filter(|c: char| c != '\\')
}

/// The pieces of a fragment: it is split on escaped newlines, and each part
/// again on real newlines.
pub open spec fn fragment_pieces(fragment: Seq<char>) -> Seq<Seq<char>> {
    split_on(fragment, escaped_newline(), 0).flat_map(
        |part: Seq<char>| split_on(part, newline(), 0),
    )
}

/// The text of the lines that a fragment gives: its pieces, each without its
/// backslashes. An empty text stands for a blank line.
pub open spec fn emit_lines(fragment: Seq<char>) -> Seq<Seq<char>> {
    fragment_pieces(fragment).map_values(|piece: Seq<char>| strip_backslashes(piece))
}

/// What a fragment adds to the accumulated message: the text of its lines,
/// one after the other, with nothing between them.
pub open spec fn cleaned_text(fragment: Seq<char>) -> Seq<char> {
    emit_lines(fragment).flatten()
}

/// What an optional fragment adds to the accumulated message.
pub open spec fn fragment_text(fragment: Option<Seq<char>>) -> Seq<char> {
    match fragment {
        Some(value) => cleaned_text(value),
        None => Seq::empty(),
    }
}

/// The lines that an optional fragment gives.
pub open spec fn fragment_lines(fragment: Option<Seq<char>>) -> Seq<Seq<char>> {
    match fragment {
        Some(value) => emit_lines(value),
        None => Seq::empty(),
    }
}

/// One emit-ready line: cleaned text to show, or a blank line where a piece
/// of the fragment was left empty.
#[derive(Debug, Clone, PartialEq, Eq)]
pub enum EmitLine {
    Text(String),
    Blank,
}

impl View for EmitLine {
    type V = Seq<char>;

    open spec fn view(&self) -> Seq<char> {
        match self {
            EmitLine::Text(text) => text@,
            EmitLine::Blank => Seq::empty(),
        }
    }
}

impl EmitLine {
    /// A text line is never empty: an empty piece is a blank line.
    pub open spec fn wf(&self) -> bool {
        self is Text ==> self@.len() > 0
    }

    /// Whether this is a blank line.
    pub fn is_blank(&self) -> (blank: bool)
        ensures
            blank == (self is Blank),
            self.wf() ==> blank == (self@.len() == 0),
    {
        match self {
            EmitLine::Text(_) => false,
            EmitLine::Blank => true,
        }
    }
}

/// The texts of a sequence of lines.
pub open spec fn line_texts(lines: Seq<EmitLine>) -> Seq<Seq<char>> {
    lines.map_values(|line: EmitLine| line@)
}

/// The contents of a sequence of character vectors.
pub open spec fn piece_texts(pieces: Seq<Vec<char>>) -> Seq<Seq<char>> {
    pieces.map_values(|piece: Vec<char>| piece@)
}

fn copy_range(s: &Vec<char>, from: usize, to: usize) -> (piece: Vec<char>)
    requires
        from <= to <= s.len(),
    ensures
        piece@ == s@.subrange(from as int, to as int),
{
    let mut piece: Vec<char> = Vec::new();
    let mut i: usize = from;
    while i < to
        invariant
            from <= i <= to <= s.len(),
            piece@ == s@.subrange(from as int, i as int),
        decreases to - i,
    {
        piece.push(s[i]);
        i += 1;
    }
    piece
}

/// Splits `s` at each occurrence of `sep`, from left to right.
pub fn split(s: &Vec<char>, sep: &Vec<char>) -> (pieces: Vec<Vec<char>>)
    ensures
        piece_texts(pieces@) == split_on(s@, sep@, 0),
{
    let mut pieces: Vec<Vec<char>> = Vec::new();
    let mut from: usize = 0;
    if sep.len() == 0 {
        pieces.push(copy_range(s, 0, s.len()));
        assert(piece_texts(pieces@) =~= split_on(s@, sep@, 0));
        return pieces;
    }
    loop
        invariant_except_break
            from <= s.len(),
            sep.len() > 0,
            split_on(s@, sep@, 0) == piece_texts(pieces@) + split_on(s@, sep@, from as int),
        ensures
            piece_texts(pieces@) == split_on(s@, sep@, 0),
        decreases s.len() - from,
    {
        proof {
            lemma_first_occurrence(s@, sep@, from as int);
        }
        match find_from(s, sep, from) {
            Some(at) => {
                let ghost before = piece_texts(pieces@);
                pieces.push(copy_range(s, from, at));
                assert(piece_texts(pieces@) =~= before + seq![s@.subrange(from as int, at as int)]);
                from = at + sep.len();
            },
            None => {
                let ghost before = piece_texts(pieces@);
                pieces.push(copy_range(s, from, s.len()));
                assert(piece_texts(pieces@) =~= before + seq![
                    s@.subrange(from as int, s.len() as int),
                ]);
                break ;
            },
        }
    }
    pieces
}

/// `piece` without its backslashes.
pub fn strip(piece: &Vec<char>) -> (cleaned: String)
    ensures
        cleaned@ == strip_backslashes(piece@),
{
    let mut cleaned = String::new();
    let mut i: usize = 0;
    assert(piece@.take(0).filter(|c: char| c != '\\') =~= Seq::<char>::empty()) by {
        reveal(Seq::filter);
    }
    while i < piece.len()
        invariant
            i <= piece.len(),
            cleaned@ == strip_backslashes(piece@.take(i as int)),
        decreases piece.len() - i,
    {
        let c = piece[i];
        proof {
            piece@.take(i as int).lemma_filter_push(c, |c: char| c != '\\');
            assert(piece@.take(i as int).push(c) =~= piece@.take(i + 1));
        }
        if c != '\\' {
            cleaned.push(c);
        }
        i += 1;
    }
    assert(piece@.take(piece.len() as int) =~= piece@);
    cleaned
}

fn escaped_newline_chars() -> (sep: Vec<char>)
    ensures
        sep@ == escaped_newline(),
{
    let sep = vec!['\\', 'n'];
    assert(sep@ =~= escaped_newline());
    sep
}

fn newline_chars() -> (sep: Vec<char>)
    ensures
        sep@ == newline(),
{
    let sep = vec!['\n'];
    assert(sep@ =~= newline());
    sep
}

/// Splits a fragment on escaped newlines, and each part again on real
/// newlines.
pub fn split_fragment(fragment: &Vec<char>) -> (pieces: Vec<Vec<char>>)
    ensures
        piece_texts(pieces@) == fragment_pieces(fragment@),
{
    let parts = split(fragment, &escaped_newline_chars());
    let sep = newline_chars();
    let ghost again = |part: Seq<char>| split_on(part, newline(), 0);
    let mut pieces: Vec<Vec<char>> = Vec::new();
    let mut i: usize = 0;
    assert(piece_texts(pieces@) =~= piece_texts(parts@).take(0).flat_map(again));
    while i < parts.len()
        invariant
            i <= parts.len(),
            sep@ == newline(),
            again == |part: Seq<char>| split_on(part, newline(), 0),
            piece_texts(pieces@) == piece_texts(parts@).take(i as int).flat_map(again),
        decreases parts.len() - i,
    {
        let mut inner = split(&parts[i], &sep);
        proof {
            piece_texts(parts@).lemma_flat_map_take_append(again, i as int);
            assert(piece_texts(pieces@ + inner@) =~= piece_texts(pieces@) + piece_texts(inner@));
        }
        pieces.append(&mut inner);
        i += 1;
    }
    assert(piece_texts(parts@).take(parts.len() as int) =~= piece_texts(parts@));
    pieces
}

/// Cleans each piece into a line and appends the text of the lines to
/// `message`.
fn clean_pieces(pieces: &Vec<Vec<char>>, message: &mut String) -> (lines: Vec<EmitLine>)
    ensures
        line_texts(lines@) == piece_texts(pieces@).map_values(
            |piece: Seq<char>| strip_backslashes(piece),
        ),
        forall|i: int| 0 <= i < lines.len() ==> (#[trigger] lines[i]).wf(),
        final(message)@ == old(message)@ + line_texts(lines@).flatten(),
{
    let ghost clean = |piece: Seq<char>| strip_backslashes(piece);
    let mut lines: Vec<EmitLine> = Vec::new();
    let mut i: usize = 0;
    assert(line_texts(lines@) =~= piece_texts(pieces@).take(0).map_values(clean));
    assert(line_texts(lines@).flatten() =~= Seq::<char>::empty());
    while i < pieces.len()
        invariant
            i <= pieces.len(),
            clean == |piece: Seq<char>| strip_backslashes(piece),
            line_texts(lines@) == piece_texts(pieces@).take(i as int).map_values(clean),
            forall|k: int| 0 <= k < lines.len() ==> (#[trigger] lines[k]).wf(),
            message@ == old(message)@ + line_texts(lines@).flatten(),
        decreases pieces.len() - i,
    {
        let cleaned = strip(&pieces[i]);
        message.append(cleaned.as_str());
        let line = if cleaned.as_str().is_empty() {
            EmitLine::Blank
        } else {
            EmitLine::Text(cleaned)
        };
        proof {
            let before = line_texts(lines@);
            assert(line@ == clean(piece_texts(pieces@)[i as int]));
            assert(line_texts(lines@.push(line)) =~= before.push(line@));
            before.lemma_flatten_push(line@);
            assert(piece_texts(pieces@).take(i + 1).map_values(clean) =~= piece_texts(
                pieces@,
            ).take(i as int).map_values(clean).push(line@));
        }
        lines.push(line);
        i += 1;
    }
    assert(piece_texts(pieces@).take(pieces.len() as int) =~= piece_texts(pieces@));
    lines
}

/// The assembler of one streaming call. It owns the accumulated message,
/// which only ever grows at its end.
pub struct StreamTextAssembler {
    message: String,
}

impl View for StreamTextAssembler {
    type V = Seq<char>;

    /// The accumulated message.
    closed spec fn view(&self) -> Seq<char> {
        self.message@
    }
}

impl StreamTextAssembler {
    /// An assembler with an empty message.
    pub fn new() -> (assembler: Self)
        ensures
            assembler@ == Seq::<char>::empty(),
    {
        StreamTextAssembler { message: String::new() }
    }

    /// Takes the fragment of one chunk: returns its lines in order and
    /// appends their text to the message. An absent fragment gives no line
    /// and leaves the message as it was.
    pub fn push_fragment(&mut self, fragment: Option<String>) -> (lines: Vec<EmitLine>)
        ensures
            line_texts(lines@) == fragment_lines(text_view(fragment)),
            lines@.len() == fragment_lines(text_view(fragment)).len(),
            forall|i: int| 0 <= i < lines.len() ==> (#[trigger] lines[i]).wf(),
            final(self)@ == old(self)@ + fragment_text(text_view(fragment)),
            old(self)@.is_prefix_of(final(self)@),
    {
        let lines = match fragment {
            None => {
                let lines: Vec<EmitLine> = Vec::new();
                assert(line_texts(lines@) =~= Seq::<Seq<char>>::empty());
                assert(self@ + Seq::<char>::empty() =~= self@);
                lines
            },
            Some(value) => {
                let chars = chars_of(value.as_str());
                let pieces = split_fragment(&chars);
                clean_pieces(&pieces, &mut self.message)
            },
        };
        assert(line_texts(lines@).len() == lines@.len());
        lines
    }

    /// The message accumulated so far.
    pub fn message(&self) -> (message: &String)
        ensures
            message@ == self@,
    {
        &self.message
    }

    /// Ends the call and hands out the finished message.
    pub fn finish(self) -> (message: String)
        ensures
            message@ == self@,
    {
        self.message
    }
}

/// The pieces joined again, with `sep` between each two.
pub open spec fn join(pieces: Seq<Seq<char>>, sep: Seq<char>) -> Seq<char>
    decreases pieces.len(),
{
    if pieces.len() == 0 {
        Seq::empty()
    } else if pieces.len() == 1 {
        pieces[0]
    } else {
        pieces[0] + sep + join(pieces.drop_first(), sep)
    }
}

/// A text without backslash and without newline.
pub open spec fn is_clean(text: Seq<char>) -> bool {
    forall|k: int| 0 <= k < text.len() ==> text[k] != '\\' && text[k] != '\n'
}

/// Splitting loses nothing: the pieces, joined with the separator, are the
/// text that was split, and there is always at least one piece.
pub proof fn lemma_split_rejoins(s: Seq<char>, sep: Seq<char>, from: int)
    requires
        0 <= from <= s.len(),
    ensures
        split_on(s, sep, from).len() >= 1,
        join(split_on(s, sep, from), sep) == s.subrange(from, s.len() as int),
    decreases s.len() - from,
{
    let found = first_occurrence(s, sep, from);
    lemma_first_occurrence(s, sep, from);
    if sep.len() > 0 && found is Some && from <= found->0 && found->0 + sep.len() <= s.len() {
        let at = found->0;
        let rest = split_on(s, sep, at + sep.len());
        lemma_split_rejoins(s, sep, at + sep.len());
        let pieces = split_on(s, sep, from);
        assert(pieces =~= seq![s.subrange(from, at)] + rest);
        assert(pieces.drop_first() =~= rest);
        assert(s.subrange(at, at + sep.len()) =~= sep);
        assert(join(pieces, sep) =~= s.subrange(from, s.len() as int));
    }
}

/// No piece holds the separator.
pub proof fn lemma_split_pieces_lack_separator(s: Seq<char>, sep: Seq<char>, from: int, i: int)
    requires
        0 <= from <= s.len(),
        sep.len() > 0,
        0 <= i < split_on(s, sep, from).len(),
    ensures
        !contains(split_on(s, sep, from)[i], sep),
    decreases s.len() - from,
{
    let found = first_occurrence(s, sep, from);
    lemma_first_occurrence(s, sep, from);
    if found is Some && from <= found->0 && found->0 + sep.len() <= s.len() {
        let at = found->0;
        if i == 0 {
            let piece = s.subrange(from, at);
            assert forall|k: int| !occurs_at(piece, sep, k) by {
                if occurs_at(piece, sep, k) {
                    assert forall|j: int| 0 <= j < sep.len() implies s[from + k + j]
                        == #[trigger] sep[j] by {
                        assert(piece[k + j] == sep[j]);
                    }
                    assert(occurs_at(s, sep, from + k));
                }
            }
        } else {
            lemma_split_pieces_lack_separator(s, sep, at + sep.len(), i - 1);
        }
    } else {
        let piece = s.subrange(from, s.len() as int);
        assert forall|k: int| !occurs_at(piece, sep, k) by {
            if occurs_at(piece, sep, k) {
                assert forall|j: int| 0 <= j < sep.len() implies s[from + k + j]
                    == #[trigger] sep[j] by {
                    assert(piece[k + j] == sep[j]);
                }
                assert(occurs_at(s, sep, from + k));
            }
        }
    }
}

/// A text that does not hold the separator is its own single piece.
pub proof fn lemma_split_without_separator(s: Seq<char>, sep: Seq<char>)
    requires
        !contains(s, sep),
    ensures
        split_on(s, sep, 0) == seq![s],
{
    lemma_first_occurrence(s, sep, 0);
    assert(s.subrange(0, s.len() as int) =~= s);
}

/// Stripping the backslashes of a text leaves none, and brings in no
/// character that the text did not hold.
pub proof fn lemma_strip_leaves_no_backslash(piece: Seq<char>, k: int)
    requires
        0 <= k < strip_backslashes(piece).len(),
    ensures
        strip_backslashes(piece)[k] != '\\',
        piece.contains(strip_backslashes(piece)[k]),
{
    let kept = |c: char| c != '\\';
    piece.lemma_filter_pred(kept, k);
    assert(piece.filter(kept).contains(piece.filter(kept)[k]));
    piece.lemma_filter_contains_rev(kept, piece.filter(kept)[k]);
}

/// Stripping the backslashes of a text that holds none changes nothing.
pub proof fn lemma_strip_without_backslash(piece: Seq<char>)
    requires
        forall|k: int| 0 <= k < piece.len() ==> piece[k] != '\\',
    ensures
        strip_backslashes(piece) == piece,
    decreases piece.len(),
{
    reveal(Seq::filter);
    if piece.len() > 0 {
        lemma_strip_without_backslash(piece.drop_last());
        assert(piece.drop_last().push(piece.last()) =~= piece);
    }
}

proof fn lemma_pieces_lack_newline(parts: Seq<Seq<char>>, n: int, i: int)
    requires
        0 <= n <= parts.len(),
        0 <= i < parts.take(n).flat_map(|part: Seq<char>| split_on(part, newline(), 0)).len(),
    ensures
        !contains(
            parts.take(n).flat_map(|part: Seq<char>| split_on(part, newline(), 0))[i],
            newline(),
        ),
    decreases n,
{
    let again = |part: Seq<char>| split_on(part, newline(), 0);
    if n == 0 {
        assert(parts.take(0).flat_map(again) =~= Seq::<Seq<char>>::empty());
    } else {
        parts.lemma_flat_map_take_append(again, n - 1);
        let before = parts.take(n - 1).flat_map(again);
        if i < before.len() {
            lemma_pieces_lack_newline(parts, n - 1, i);
        } else {
            lemma_split_pieces_lack_separator(parts[n - 1], newline(), 0, i - before.len());
        }
    }
}

/// Every line that a fragment gives is clean: it holds no backslash and no
/// newline.
pub proof fn lemma_lines_are_clean(fragment: Seq<char>, i: int)
    requires
        0 <= i < emit_lines(fragment).len(),
    ensures
        is_clean(emit_lines(fragment)[i]),
{
    let parts = split_on(fragment, escaped_newline(), 0);
    let piece = fragment_pieces(fragment)[i];
    assert(parts.take(parts.len() as int) =~= parts);
    lemma_pieces_lack_newline(parts, parts.len() as int, i);
    let line = emit_lines(fragment)[i];
    assert(line == strip_backslashes(piece));
    assert forall|k: int| 0 <= k < line.len() implies line[k] != '\\' && line[k] != '\n' by {
        lemma_strip_leaves_no_backslash(piece, k);
        let at = choose|at: int| 0 <= at < piece.len() && piece[at] == line[k];
        if line[k] == '\n' {
            assert(occurs_at(piece, newline(), at));
        }
    }
}

proof fn lemma_flatten_of_clean(lines: Seq<Seq<char>>)
    requires
        forall|i: int| 0 <= i < lines.len() ==> is_clean(#[trigger] lines[i]),
    ensures
        is_clean(lines.flatten()),
    decreases lines.len(),
{
    if lines.len() > 0 {
        lemma_flatten_of_clean(lines.drop_last());
        assert(lines.drop_last().push(lines.last()) =~= lines);
        lines.drop_last().lemma_flatten_push(lines.last());
        assert(is_clean(lines.last()));
    }
}

/// What a fragment adds to the message is clean: it holds no backslash and
/// no newline.
pub proof fn lemma_cleaned_text_is_clean(fragment: Seq<char>)
    ensures
        is_clean(cleaned_text(fragment)),
{
    assert forall|i: int| 0 <= i < emit_lines(fragment).len() implies is_clean(
        #[trigger] emit_lines(fragment)[i],
    ) by {
        lemma_lines_are_clean(fragment, i);
    }
    lemma_flatten_of_clean(emit_lines(fragment));
}

/// A clean fragment is its own single line, and is added to the message as
/// it is.
pub proof fn lemma_clean_fragment_is_one_line(fragment: Seq<char>)
    requires
        is_clean(fragment),
    ensures
        emit_lines(fragment) == seq![fragment],
        cleaned_text(fragment) == fragment,
{
    assert forall|at: int| !occurs_at(fragment, escaped_newline(), at) by {
        if occurs_at(fragment, escaped_newline(), at) {
            assert(fragment[at + 0] == escaped_newline()[0]);
        }
    }
    assert forall|at: int| !occurs_at(fragment, newline(), at) by {
        if occurs_at(fragment, newline(), at) {
            assert(fragment[at + 0] == newline()[0]);
        }
    }
    lemma_split_without_separator(fragment, escaped_newline());
    lemma_split_without_separator(fragment, newline());
    let again = |part: Seq<char>| split_on(part, newline(), 0);
    seq![fragment].lemma_flat_map_singleton(again);
    lemma_strip_without_backslash(fragment);
    assert(emit_lines(fragment) =~= seq![fragment]);
    seq![fragment].lemma_flatten_singleton();
}

} // verus!
