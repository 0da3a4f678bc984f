pub mod my_image;
