//! Remote photo collection access, one provider per submodule.

pub mod unsplash;
