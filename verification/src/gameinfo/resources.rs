use vstd::prelude::*;
use crate::gameinfo::monster::Drop;

verus! {

/// A resource spot of the game: what can be gathered there, with which skill and level.
#[derive(Debug, Clone)]
pub struct Resource {
    pub name: String,
    pub code: String,
    pub skill: String,
    pub level: u32,
    pub drops: Vec<Drop>,
}

/// One page of the resource listing of the server.
#[derive(Debug, Clone)]
pub struct ResourcePage {
    pub data: Vec<Resource>,
    pub pages: usize,
}

} // verus!
