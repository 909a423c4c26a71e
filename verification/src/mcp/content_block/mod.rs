pub mod text_content;
