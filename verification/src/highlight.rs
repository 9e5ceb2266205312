//! Colouring the configuration text: it is cut into lines, and each line is
//! either a comment or not.

use crate::text::{
    chars_of, is_white_space, lemma_skip_is_trimmed_start, push_char, trimmed_start,
};
use vstd::prelude::*;
use vstd::string::*;

verus! {

/// One line of the configuration text with its line end, if it has one.
#[derive(Clone, Debug, PartialEq, Eq)]
pub struct Chunk {
    pub text: String,
    /// The line is a comment.
    pub comment: bool,
}

/// The texts of `chunks`.
pub open spec fn chunk_texts(chunks: Seq<Chunk>) -> Seq<Seq<char>> {
    chunks.map_values(|chunk: Chunk| chunk.text@)
}

/// `pieces` are `text` cut after each line end: put together they give the
/// text, none is empty, a line end stands nowhere but at the end of a
/// piece, and every piece but the last has one there.
pub open spec fn cut_by_lines(text: Seq<char>, pieces: Seq<Seq<char>>) -> bool {
    &&& pieces.flatten() == text
    &&& forall|k: int| 0 <= k < pieces.len() ==> (#[trigger] pieces[k]).len() > 0
    &&& forall|k: int, j: int|
        0 <= k < pieces.len() && 0 <= j < pieces[k].len() - 1 ==> #[trigger] pieces[k][j] != '\n'
    &&& forall|k: int| 0 <= k < pieces.len() - 1 ==> (#[trigger] pieces[k]).last() == '\n'
}

/// A line is a comment if the first character after its leading white
/// space is `#`.
pub open spec fn is_comment(line: Seq<char>) -> bool {
    let rest = trimmed_start(line);
    rest.len() > 0 && rest.first() == '#'
}

/// Cuts the configuration text into its lines, each with its line end, and
/// tells the comments from the rest.
pub fn highlight_config_text(code: &str) -> (chunks: Vec<Chunk>)
    ensures
        cut_by_lines(code@, chunk_texts(chunks@)),
        forall|k: int|
            0 <= k < chunks.len() ==> (#[trigger] chunks[k]).comment == is_comment(
                chunks[k].text@,
            ),
{
    let chars = chars_of(code);
    let mut chunks: Vec<Chunk> = Vec::new();
    let mut current = String::new();
    let mut marked = false;
    let mut comment = false;
    let ghost mut mark: int = 0;
    let mut i: usize = 0;
    while i < chars.len()
        invariant
            i <= chars.len(),
            chars@ == code@,
            chunk_texts(chunks@).flatten() + current@ == chars@.take(i as int),
            forall|k: int| 0 <= k < chunks.len() ==> (#[trigger] chunk_texts(chunks@)[k]).len() > 0,
            forall|k: int, j: int|
                0 <= k < chunks.len() && 0 <= j < chunk_texts(chunks@)[k].len() - 1
                    ==> #[trigger] chunk_texts(chunks@)[k][j] != '\n',
            forall|k: int|
                0 <= k < chunks.len() ==> (#[trigger] chunk_texts(chunks@)[k]).last() == '\n',
            forall|k: int|
                0 <= k < chunks.len() ==> (#[trigger] chunks[k]).comment == is_comment(
                    chunks[k].text@,
                ),
            forall|j: int| 0 <= j < current@.len() ==> #[trigger] current@[j] != '\n',
            !marked ==> !comment && forall|j: int|
                0 <= j < current@.len() ==> is_white_space(#[trigger] current@[j]),
            marked ==> 0 <= mark < current@.len() && !is_white_space(current@[mark]) && comment == (
            current@[mark] == '#') && forall|j: int|
                0 <= j < mark ==> is_white_space(#[trigger] current@[j]),
        decreases chars.len() - i,
    {
        let c = chars[i];
        let ghost before = current@;
        let ghost pieces = chunk_texts(chunks@);
        push_char(&mut current, c);
        if !marked && !c.is_whitespace() {
            marked = true;
            comment = c == '#';
            proof {
                mark = before.len() as int;
            }
        }
        proof {
            assert(chars@.take(i + 1) =~= chars@.take(i as int).push(c));
        }
        if c == '\n' {
            proof {
                if marked {
                    lemma_skip_is_trimmed_start(current@, mark);
                } else {
                    lemma_skip_is_trimmed_start(current@, current@.len() as int);
                }
            }
            let ghost line = current@;
            chunks.push(Chunk { text: current, comment });
            current = String::new();
            marked = false;
            comment = false;
            proof {
                assert(chunk_texts(chunks@) =~= pieces.push(line));
                pieces.lemma_flatten_push(line);
            }
        }
        i += 1;
    }
    proof {
        assert(chars@.take(i as int) =~= chars@);
    }
    if !current.as_str().is_empty() {
        proof {
            if marked {
                lemma_skip_is_trimmed_start(current@, mark);
            } else {
                lemma_skip_is_trimmed_start(current@, current@.len() as int);
            }
        }
        let ghost pieces = chunk_texts(chunks@);
        let ghost line = current@;
        chunks.push(Chunk { text: current, comment });
        proof {
            assert(chunk_texts(chunks@) =~= pieces.push(line));
            pieces.lemma_flatten_push(line);
        }
    }
    chunks
}

} // verus!
