pub mod file_header_section;
pub mod image_resources_section;
pub mod major_sections;
pub mod psd_cursor;
