pub mod make_url;
