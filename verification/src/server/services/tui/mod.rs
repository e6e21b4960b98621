pub mod loading;
