pub mod command_line_header;
pub mod command_line_output;
