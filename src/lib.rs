//! Scanning text for its first whitespace-delimited token, version-stamped
//! views into a mutable text buffer, and a few small string and record helpers.
mod bounded_view;
mod lesson;
mod strings;
mod text_buffer;
mod token;

pub use bounded_view::{
    find_first_token_end, first_token_view, first_token_view_of,
    lemma_clear_invalidates_first_token_view, lemma_first_token_view_reads_prefix,
    lemma_leading_whitespace_token_end_is_zero, lemma_no_whitespace_token_end_is_length,
    lemma_scans_repeatable, sub_view, BufferView, ViewError,
};
pub use lesson::{add_three, create_lesson, Lesson};
pub use strings::{add_digits, calculate_length, first_word_index, first_word_slice};
pub use text_buffer::TextBuffer;
pub use token::{
    is_whitespace, is_whitespace_byte, lemma_token_end_is_first_whitespace, token_end, token_end_of,
};
