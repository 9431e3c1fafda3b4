pub mod retriever;
