pub mod audio_thread;
