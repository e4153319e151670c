use vstd::prelude::*;

use crate::domain::entity::client::Client;

verus! {

/// The first client in `clients` whose id is `id`, if any.
pub fn find_client_by_id(clients: &Vec<Client>, id: u128) -> (r: Option<Client>)
    ensures
        match r {
            Some(c) => exists|i: int|
                0 <= i < clients@.len() && clients@[i]@.id == id && c@ == clients@[i]@ && (
                forall|j: int| 0 <= j < i ==> #[trigger] clients@[j]@.id != id),
            None => forall|i: int| 0 <= i < clients@.len() ==> #[trigger] clients@[i]@.id != id,
        },
{
    let mut i: usize = 0;
    while i < clients.len()
        invariant
            i <= clients@.len(),
            forall|j: int| 0 <= j < i ==> #[trigger] clients@[j]@.id != id,
        decreases clients@.len() - i,
    {
        if clients[i].id() == id {
            let found = clients[i].duplicate();
            return Some(found);
        }
        i = i + 1;
    }
    None
}

} // verus!
