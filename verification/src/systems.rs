pub mod print_basic_components;
