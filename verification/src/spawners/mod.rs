//! Spawners: the backends that see a unit of work run to completion.

mod default;
mod spawner;
mod tokio_spawner;

pub use default::DefaultSpawner;
pub use spawner::Spawned;
pub use spawner::TestSpawnFactory;
pub use spawner::TestSpawner;
pub use tokio_spawner::submitted_to;
pub use tokio_spawner::TokioSpawner;
