//! User-facing strings of the client, in each supported language. Every
//! method's contract pins the exact text returned for each language.

use vstd::prelude::*;
use vstd::string::StringExecFns;

verus! {

broadcast use vstd::string::group_string_axioms;

/// The languages the client can display.
#[derive(Clone, Copy, Debug, PartialEq, Eq, Structural)]
pub enum Language {
    English,
    Russian,
}

/// Picks the display text for one configured language.
#[derive(Clone, Copy, Debug, PartialEq, Eq, Structural)]
pub struct Translator {
    pub language: Language,
}

impl Translator {
    pub fn new(language: Language) -> (r: Self)
        ensures
            r.language == language,
    {
        Self { language }
    }

    pub fn add_server(&self) -> (r: String)
        ensures
            r@ == match self.language {
                Language::English => "Add server"@,
                Language::Russian => "Добавить сервер"@,
            },
    {
        match self.language {
            Language::English => "Add server".to_string(),
            Language::Russian => "Добавить сервер".to_string(),
        }
    }

    pub fn name(&self) -> (r: String)
        ensures
            r@ == match self.language {
                Language::English => "Name"@,
                Language::Russian => "Имя"@,
            },
    {
        match self.language {
            Language::English => "Name".to_string(),
            Language::Russian => "Имя".to_string(),
        }
    }

    pub fn server_address(&self) -> (r: String)
        ensures
            r@ == match self.language {
                Language::English => "Server address"@,
                Language::Russian => "Адрес сервера"@,
            },
    {
        match self.language {
            Language::English => "Server address".to_string(),
            Language::Russian => "Адрес сервера".to_string(),
        }
    }

    pub fn port(&self) -> (r: String)
        ensures
            r@ == match self.language {
                Language::English => "Port"@,
                Language::Russian => "Порт"@,
            },
    {
        match self.language {
            Language::English => "Port".to_string(),
            Language::Russian => "Порт".to_string(),
        }
    }

    pub fn user(&self) -> (r: String)
        ensures
            r@ == match self.language {
                Language::English => "User"@,
                Language::Russian => "Пользователь"@,
            },
    {
        match self.language {
            Language::English => "User".to_string(),
            Language::Russian => "Пользователь".to_string(),
        }
    }

    pub fn password(&self) -> (r: String)
        ensures
            r@ == match self.language {
                Language::English => "Password"@,
                Language::Russian => "Пароль"@,
            },
    {
        match self.language {
            Language::English => "Password".to_string(),
            Language::Russian => "Пароль".to_string(),
        }
    }

    pub fn service_database(&self) -> (r: String)
        ensures
            r@ == match self.language {
                Language::English => "Service database"@,
                Language::Russian => "Сервисная база данных"@,
            },
    {
        match self.language {
            Language::English => "Service database".to_string(),
            Language::Russian => "Сервисная база данных".to_string(),
        }
    }

    pub fn language(&self) -> (r: String)
        ensures
            r@ == match self.language {
                Language::English => "Language"@,
                Language::Russian => "Язык"@,
            },
    {
        match self.language {
            Language::English => "Language".to_string(),
            Language::Russian => "Язык".to_string(),
        }
    }

    pub fn settings(&self) -> (r: String)
        ensures
            r@ == match self.language {
                Language::English => "Settings"@,
                Language::Russian => "Настройки"@,
            },
    {
        match self.language {
            Language::English => "Settings".to_string(),
            Language::Russian => "Настройки".to_string(),
        }
    }

    pub fn scale_factor(&self) -> (r: String)
        ensures
            r@ == match self.language {
                Language::English => "Scale factor"@,
                Language::Russian => "Масштаб"@,
            },
    {
        match self.language {
            Language::English => "Scale factor".to_string(),
            Language::Russian => "Масштаб".to_string(),
        }
    }

    pub fn theme(&self) -> (r: String)
        ensures
            r@ == match self.language {
                Language::English => "Theme"@,
                Language::Russian => "Тема"@,
            },
    {
        match self.language {
            Language::English => "Theme".to_string(),
            Language::Russian => "Тема".to_string(),
        }
    }

    pub fn light(&self) -> (r: String)
        ensures
            r@ == match self.language {
                Language::English => "Light"@,
                Language::Russian => "Светлая"@,
            },
    {
        match self.language {
            Language::English => "Light".to_string(),
            Language::Russian => "Светлая".to_string(),
        }
    }

    pub fn dark(&self) -> (r: String)
        ensures
            r@ == match self.language {
                Language::English => "Dark"@,
                Language::Russian => "Темная"@,
            },
    {
        match self.language {
            Language::English => "Dark".to_string(),
            Language::Russian => "Темная".to_string(),
        }
    }

    pub fn name_is_required(&self) -> (r: String)
        ensures
            r@ == match self.language {
                Language::English => "- Name is required"@,
                Language::Russian => "- Имя обязательно"@,
            },
    {
        match self.language {
            Language::English => "- Name is required".to_string(),
            Language::Russian => "- Имя обязательно".to_string(),
        }
    }

    pub fn name_must_be_less_than_32_characters(&self) -> (r: String)
        ensures
            r@ == match self.language {
                Language::English => "- Name must be less than 32 characters"@,
                Language::Russian => "- Имя должно быть меньше 32 символов"@,
            },
    {
        match self.language {
            Language::English => "- Name must be less than 32 characters".to_string(),
            Language::Russian => "- Имя должно быть меньше 32 символов".to_string(),
        }
    }

    pub fn name_must_be_unique(&self) -> (r: String)
        ensures
            r@ == match self.language {
                Language::English => "- Name must be unique"@,
                Language::Russian => "- Имя должно быть уникальным"@,
            },
    {
        match self.language {
            Language::English => "- Name must be unique".to_string(),
            Language::Russian => "- Имя должно быть уникальным".to_string(),
        }
    }

    pub fn port_is_required(&self) -> (r: String)
        ensures
            r@ == match self.language {
                Language::English => "- Port is required"@,
                Language::Russian => "- Порт обязателен"@,
            },
    {
        match self.language {
            Language::English => "- Port is required".to_string(),
            Language::Russian => "- Порт обязателен".to_string(),
        }
    }

    pub fn user_is_required(&self) -> (r: String)
        ensures
            r@ == match self.language {
                Language::English => "- User is required"@,
                Language::Russian => "- Пользователь обязателен"@,
            },
    {
        match self.language {
            Language::English => "- User is required".to_string(),
            Language::Russian => "- Пользователь обязателен".to_string(),
        }
    }

    pub fn ip_is_required(&self) -> (r: String)
        ensures
            r@ == match self.language {
                Language::English => "- IP is required"@,
                Language::Russian => "- IP обязателен"@,
            },
    {
        match self.language {
            Language::English => "- IP is required".to_string(),
            Language::Russian => "- IP обязателен".to_string(),
        }
    }

    pub fn incorrect_port_value(&self) -> (r: String)
        ensures
            r@ == match self.language {
                Language::English => "- Incorrect port value"@,
                Language::Russian => "- Некорректный порт"@,
            },
    {
        match self.language {
            Language::English => "- Incorrect port value".to_string(),
            Language::Russian => "- Некорректный порт".to_string(),
        }
    }

    pub fn service_database_is_required(&self) -> (r: String)
        ensures
            r@ == match self.language {
                Language::English => "- Service database is required"@,
                Language::Russian => "- Сервисная база данных обязательна"@,
            },
    {
        match self.language {
            Language::English => "- Service database is required".to_string(),
            Language::Russian => "- Сервисная база данных обязательна".to_string(),
        }
    }

    pub fn save(&self) -> (r: String)
        ensures
            r@ == match self.language {
                Language::English => "Save"@,
                Language::Russian => "Сохранить"@,
            },
    {
        match self.language {
            Language::English => "Save".to_string(),
            Language::Russian => "Сохранить".to_string(),
        }
    }

    pub fn open(&self) -> (r: String)
        ensures
            r@ == match self.language {
                Language::English => "Open"@,
                Language::Russian => "Открыть"@,
            },
    {
        match self.language {
            Language::English => "Open".to_string(),
            Language::Russian => "Открыть".to_string(),
        }
    }

    pub fn back(&self) -> (r: String)
        ensures
            r@ == match self.language {
                Language::English => "Back"@,
                Language::Russian => "Назад"@,
            },
    {
        match self.language {
            Language::English => "Back".to_string(),
            Language::Russian => "Назад".to_string(),
        }
    }

    pub fn delete_server(&self) -> (r: String)
        ensures
            r@ == match self.language {
                Language::English => "Delete server"@,
                Language::Russian => "Удалить сервер"@,
            },
    {
        match self.language {
            Language::English => "Delete server".to_string(),
            Language::Russian => "Удалить сервер".to_string(),
        }
    }

    pub fn edit_server(&self) -> (r: String)
        ensures
            r@ == match self.language {
                Language::English => "Edit server"@,
                Language::Russian => "Редактировать сервер"@,
            },
    {
        match self.language {
            Language::English => "Edit server".to_string(),
            Language::Russian => "Редактировать сервер".to_string(),
        }
    }

    pub fn delete_server_confirmation(&self) -> (r: String)
        ensures
            r@ == match self.language {
                Language::English => "Are you sure you want to delete this server?"@,
                Language::Russian => "Вы уверены, что хотите удалить этот сервер?"@,
            },
    {
        match self.language {
            Language::English => "Are you sure you want to delete this server?".to_string(),
            Language::Russian => "Вы уверены, что хотите удалить этот сервер?".to_string(),
        }
    }

    pub fn yes(&self) -> (r: String)
        ensures
            r@ == match self.language {
                Language::English => "Yes"@,
                Language::Russian => "Да"@,
            },
    {
        match self.language {
            Language::English => "Yes".to_string(),
            Language::Russian => "Да".to_string(),
        }
    }

    pub fn no(&self) -> (r: String)
        ensures
            r@ == match self.language {
                Language::English => "No"@,
                Language::Russian => "Нет"@,
            },
    {
        match self.language {
            Language::English => "No".to_string(),
            Language::Russian => "Нет".to_string(),
        }
    }

    pub fn text_viewer(&self) -> (r: String)
        ensures
            r@ == match self.language {
                Language::English => "Text viewer"@,
                Language::Russian => "Текстовый просмотрщик"@,
            },
    {
        match self.language {
            Language::English => "Text viewer".to_string(),
            Language::Russian => "Текстовый просмотрщик".to_string(),
        }
    }

    pub fn copy(&self) -> (r: String)
        ensures
            r@ == match self.language {
                Language::English => "Copy"@,
                Language::Russian => "Копировать"@,
            },
    {
        match self.language {
            Language::English => "Copy".to_string(),
            Language::Russian => "Копировать".to_string(),
        }
    }

    pub fn close(&self) -> (r: String)
        ensures
            r@ == match self.language {
                Language::English => "Close"@,
                Language::Russian => "Закрыть"@,
            },
    {
        match self.language {
            Language::English => "Close".to_string(),
            Language::Russian => "Закрыть".to_string(),
        }
    }

    pub fn welcome(&self) -> (r: String)
        ensures
            r@ == match self.language {
                Language::English => "Welcome to Rs-Postgres: Rust-based PostgreSQL client."@,
                Language::Russian => "Добро пожаловать в Rs-Postgres: Rust-based PostgreSQL клиент."@,
            },
    {
        match self.language {
            Language::English => "Welcome to Rs-Postgres: Rust-based PostgreSQL client.".to_string(),
            Language::Russian => "Добро пожаловать в Rs-Postgres: Rust-based PostgreSQL клиент.".to_string(),
        }
    }

    pub fn features(&self) -> (r: String)
        ensures
            r@ == match self.language {
                Language::English => "Features"@,
                Language::Russian => "Функции"@,
            },
    {
        match self.language {
            Language::English => "Features".to_string(),
            Language::Russian => "Функции".to_string(),
        }
    }

    pub fn features_content(&self) -> (r: String)
        ensures
            r@ == match self.language {
                Language::English => r#"• Lightweight and fast
• Secure encryption of server credentials
• Connect to multiple PostgreSQL servers
• Manage databases through GUI
• Execute SQL queries with results view"#@,
                Language::Russian => r#"• Легкий и быстрый
• Безопасное шифрование учетных данных сервера
• Подключение ко множеству серверов PostgreSQL
• Управление базами данных через графический интерфейс
• Выполнение SQL-запросов с просмотром результатов"#@,
            },
    {
        match self.language {
            Language::English => r#"• Lightweight and fast
• Secure encryption of server credentials
• Connect to multiple PostgreSQL servers
• Manage databases through GUI
• Execute SQL queries with results view"#.to_string(),
            Language::Russian => r#"• Легкий и быстрый
• Безопасное шифрование учетных данных сервера
• Подключение ко множеству серверов PostgreSQL
• Управление базами данных через графический интерфейс
• Выполнение SQL-запросов с просмотром результатов"#.to_string(),
        }
    }

    pub fn get_started(&self) -> (r: String)
        ensures
            r@ == match self.language {
                Language::English => "Getting started"@,
                Language::Russian => "Начало работы"@,
            },
    {
        match self.language {
            Language::English => "Getting started".to_string(),
            Language::Russian => "Начало работы".to_string(),
        }
    }

    pub fn get_started_content(&self) -> (r: String)
        ensures
            r@ == match self.language {
                Language::English => r#"1. Click "Add server" in left panel
2. Enter server connection parameters
3. Select database in connection tree
4. Start working with SQL queries by clicking "SQL Query" button or choosing preset script"#@,
                Language::Russian => r#"1. Нажмите "Добавить сервер" на левой панели
2. Введите параметры подключения к серверу
3. Выберите базу данных в дереве соединений.
4. Начните работу с SQL-запросами, нажав кнопку "SQL Query" или выбрав предустановленный скрипт."#@,
            },
    {
        match self.language {
            Language::English => r#"1. Click "Add server" in left panel
2. Enter server connection parameters
3. Select database in connection tree
4. Start working with SQL queries by clicking "SQL Query" button or choosing preset script"#.to_string(),
            Language::Russian => r#"1. Нажмите "Добавить сервер" на левой панели
2. Введите параметры подключения к серверу
3. Выберите базу данных в дереве соединений.
4. Начните работу с SQL-запросами, нажав кнопку "SQL Query" или выбрав предустановленный скрипт."#.to_string(),
        }
    }

    pub fn resources(&self) -> (r: String)
        ensures
            r@ == match self.language {
                Language::English => "Resources"@,
                Language::Russian => "Ресурсы"@,
            },
    {
        match self.language {
            Language::English => "Resources".to_string(),
            Language::Russian => "Ресурсы".to_string(),
        }
    }

    pub fn github(&self) -> (r: String)
        ensures
            r@ == match self.language {
                Language::English => "🐙 GitHub"@,
                Language::Russian => "🐙 GitHub"@,
            },
    {
        match self.language {
            Language::English => "🐙 GitHub".to_string(),
            Language::Russian => "🐙 GitHub".to_string(),
        }
    }

    pub fn open_repo(&self) -> (r: String)
        ensures
            r@ == match self.language {
                Language::English => "Open repository"@,
                Language::Russian => "Открыть репозиторий"@,
            },
    {
        match self.language {
            Language::English => "Open repository".to_string(),
            Language::Russian => "Открыть репозиторий".to_string(),
        }
    }

    pub fn license(&self) -> (r: String)
        ensures
            r@ == match self.language {
                Language::English => "📝 License"@,
                Language::Russian => "📝 Лицензия"@,
            },
    {
        match self.language {
            Language::English => "📝 License".to_string(),
            Language::Russian => "📝 Лицензия".to_string(),
        }
    }

    pub fn open_license(&self) -> (r: String)
        ensures
            r@ == match self.language {
                Language::English => "Open license"@,
                Language::Russian => "Открыть лицензию"@,
            },
    {
        match self.language {
            Language::English => "Open license".to_string(),
            Language::Russian => "Открыть лицензию".to_string(),
        }
    }

    pub fn support(&self) -> (r: String)
        ensures
            r@ == match self.language {
                Language::English => "📨 Support"@,
                Language::Russian => "📨 Поддержка"@,
            },
    {
        match self.language {
            Language::English => "📨 Support".to_string(),
            Language::Russian => "📨 Поддержка".to_string(),
        }
    }

    pub fn open_support(&self) -> (r: String)
        ensures
            r@ == match self.language {
                Language::English => "Open support"@,
                Language::Russian => "Открыть поддержку"@,
            },
    {
        match self.language {
            Language::English => "Open support".to_string(),
            Language::Russian => "Открыть поддержку".to_string(),
        }
    }

    pub fn version(&self, version: &str) -> (r: String)
        ensures
            r@ == match self.language {
                Language::English => "Version "@ + version@,
                Language::Russian => "Версия "@ + version@,
            },
    {
        match self.language {
            Language::English => "Version ".to_string().concat(version),
            Language::Russian => "Версия ".to_string().concat(version),
        }
    }

    pub fn run_f5(&self) -> (r: String)
        ensures
            r@ == match self.language {
                Language::English => "Run (F5)"@,
                Language::Russian => "Выполнить (F5)"@,
            },
    {
        match self.language {
            Language::English => "Run (F5)".to_string(),
            Language::Russian => "Выполнить (F5)".to_string(),
        }
    }

    pub fn clear(&self) -> (r: String)
        ensures
            r@ == match self.language {
                Language::English => "Clear"@,
                Language::Russian => "Очистить"@,
            },
    {
        match self.language {
            Language::English => "Clear".to_string(),
            Language::Russian => "Очистить".to_string(),
        }
    }

    pub fn file(&self) -> (r: String)
        ensures
            r@ == match self.language {
                Language::English => "File:"@,
                Language::Russian => "Файл:"@,
            },
    {
        match self.language {
            Language::English => "File:".to_string(),
            Language::Russian => "Файл:".to_string(),
        }
    }

    pub fn running(&self) -> (r: String)
        ensures
            r@ == match self.language {
                Language::English => "Running..."@,
                Language::Russian => "Выполняется..."@,
            },
    {
        match self.language {
            Language::English => "Running...".to_string(),
            Language::Russian => "Выполняется...".to_string(),
        }
    }

    pub fn success(&self) -> (r: String)
        ensures
            r@ == match self.language {
                Language::English => "Success"@,
                Language::Russian => "Успешно"@,
            },
    {
        match self.language {
            Language::English => "Success".to_string(),
            Language::Russian => "Успешно".to_string(),
        }
    }

    pub fn time(&self, time: &str) -> (r: String)
        ensures
            r@ == match self.language {
                Language::English => "Time: "@ + time@ + " ms"@,
                Language::Russian => "Время: "@ + time@ + " ms"@,
            },
    {
        match self.language {
            Language::English => "Time: ".to_string().concat(time).concat(" ms"),
            Language::Russian => "Время: ".to_string().concat(time).concat(" ms"),
        }
    }

    pub fn rows(&self, rows: &str) -> (r: String)
        ensures
            r@ == match self.language {
                Language::English => "Rows: "@ + rows@,
                Language::Russian => "Строки: "@ + rows@,
            },
    {
        match self.language {
            Language::English => "Rows: ".to_string().concat(rows),
            Language::Russian => "Строки: ".to_string().concat(rows),
        }
    }

    pub fn click_to_copy(&self) -> (r: String)
        ensures
            r@ == match self.language {
                Language::English => "Click to copy"@,
                Language::Russian => "Нажмите, чтобы скопировать"@,
            },
    {
        match self.language {
            Language::English => "Click to copy".to_string(),
            Language::Russian => "Нажмите, чтобы скопировать".to_string(),
        }
    }

    pub fn no_data_returned(&self) -> (r: String)
        ensures
            r@ == match self.language {
                Language::English => "No data returned"@,
                Language::Russian => "Нет данных"@,
            },
    {
        match self.language {
            Language::English => "No data returned".to_string(),
            Language::Russian => "Нет данных".to_string(),
        }
    }

    pub fn error(&self) -> (r: String)
        ensures
            r@ == match self.language {
                Language::English => "Error!"@,
                Language::Russian => "Ошибка!"@,
            },
    {
        match self.language {
            Language::English => "Error!".to_string(),
            Language::Russian => "Ошибка!".to_string(),
        }
    }

    pub fn clear_storage(&self) -> (r: String)
        ensures
            r@ == match self.language {
                Language::English => "Clear storage"@,
                Language::Russian => "Очистить хранилище"@,
            },
    {
        match self.language {
            Language::English => "Clear storage".to_string(),
            Language::Russian => "Очистить хранилище".to_string(),
        }
    }

    pub fn clear_storage_confirmation(&self) -> (r: String)
        ensures
            r@ == match self.language {
                Language::English => "Do you want to clear storage? This action is irreversible."@,
                Language::Russian => "Вы уверены, что хотите очистить хранилище? Это действие необратимо."@,
            },
    {
        match self.language {
            Language::English => "Do you want to clear storage? This action is irreversible.".to_string(),
            Language::Russian => "Вы уверены, что хотите очистить хранилище? Это действие необратимо.".to_string(),
        }
    }

    pub fn login(&self) -> (r: String)
        ensures
            r@ == match self.language {
                Language::English => "Login"@,
                Language::Russian => "Вход"@,
            },
    {
        match self.language {
            Language::English => "Login".to_string(),
            Language::Russian => "Вход".to_string(),
        }
    }

    pub fn enter_encryption_password(&self) -> (r: String)
        ensures
            r@ == match self.language {
                Language::English => "Enter encryption password:"@,
                Language::Russian => "Введите пароль шифрования:"@,
            },
    {
        match self.language {
            Language::English => "Enter encryption password:".to_string(),
            Language::Russian => "Введите пароль шифрования:".to_string(),
        }
    }

    pub fn create_encryption_password(&self) -> (r: String)
        ensures
            r@ == match self.language {
                Language::English => "Create encryption password:"@,
                Language::Russian => "Задайте пароль шифрования:"@,
            },
    {
        match self.language {
            Language::English => "Create encryption password:".to_string(),
            Language::Russian => "Задайте пароль шифрования:".to_string(),
        }
    }

    pub fn incorrect_password_hash_mismatch(&self) -> (r: String)
        ensures
            r@ == match self.language {
                Language::English => "Incorrect password: hash mismatch"@,
                Language::Russian => "Неверный пароль: несоответствие хэша"@,
            },
    {
        match self.language {
            Language::English => "Incorrect password: hash mismatch".to_string(),
            Language::Russian => "Неверный пароль: несоответствие хэша".to_string(),
        }
    }

    pub fn servers(&self) -> (r: String)
        ensures
            r@ == match self.language {
                Language::English => "Servers"@,
                Language::Russian => "Серверы"@,
            },
    {
        match self.language {
            Language::English => "Servers".to_string(),
            Language::Russian => "Серверы".to_string(),
        }
    }

    pub fn databases(&self) -> (r: String)
        ensures
            r@ == match self.language {
                Language::English => "Databases"@,
                Language::Russian => "Базы данных"@,
            },
    {
        match self.language {
            Language::English => "Databases".to_string(),
            Language::Russian => "Базы данных".to_string(),
        }
    }

    pub fn tables(&self) -> (r: String)
        ensures
            r@ == match self.language {
                Language::English => "Tables"@,
                Language::Russian => "Таблицы"@,
            },
    {
        match self.language {
            Language::English => "Tables".to_string(),
            Language::Russian => "Таблицы".to_string(),
        }
    }

    pub fn scripts(&self) -> (r: String)
        ensures
            r@ == match self.language {
                Language::English => "Scripts"@,
                Language::Russian => "Скрипты"@,
            },
    {
        match self.language {
            Language::English => "Scripts".to_string(),
            Language::Russian => "Скрипты".to_string(),
        }
    }

    pub fn get_columns(&self) -> (r: String)
        ensures
            r@ == match self.language {
                Language::English => "Get columns"@,
                Language::Russian => "Получить столбцы"@,
            },
    {
        match self.language {
            Language::English => "Get columns".to_string(),
            Language::Russian => "Получить столбцы".to_string(),
        }
    }

    pub fn delete(&self) -> (r: String)
        ensures
            r@ == match self.language {
                Language::English => "Delete"@,
                Language::Russian => "Удалить"@,
            },
    {
        match self.language {
            Language::English => "Delete".to_string(),
            Language::Russian => "Удалить".to_string(),
        }
    }

    pub fn edit(&self) -> (r: String)
        ensures
            r@ == match self.language {
                Language::English => "Edit"@,
                Language::Russian => "Редактировать"@,
            },
    {
        match self.language {
            Language::English => "Edit".to_string(),
            Language::Russian => "Редактировать".to_string(),
        }
    }

    pub fn reload(&self) -> (r: String)
        ensures
            r@ == match self.language {
                Language::English => "Reload"@,
                Language::Russian => "Перезагрузить"@,
            },
    {
        match self.language {
            Language::English => "Reload".to_string(),
            Language::Russian => "Перезагрузить".to_string(),
        }
    }

    pub fn change_password(&self) -> (r: String)
        ensures
            r@ == match self.language {
                Language::English => "Change password"@,
                Language::Russian => "Сменить пароль"@,
            },
    {
        match self.language {
            Language::English => "Change password".to_string(),
            Language::Russian => "Сменить пароль".to_string(),
        }
    }

    pub fn old_password(&self) -> (r: String)
        ensures
            r@ == match self.language {
                Language::English => "Old password"@,
                Language::Russian => "Старый пароль"@,
            },
    {
        match self.language {
            Language::English => "Old password".to_string(),
            Language::Russian => "Старый пароль".to_string(),
        }
    }

    pub fn new_password(&self) -> (r: String)
        ensures
            r@ == match self.language {
                Language::English => "New password"@,
                Language::Russian => "Новый пароль"@,
            },
    {
        match self.language {
            Language::English => "New password".to_string(),
            Language::Russian => "Новый пароль".to_string(),
        }
    }

    pub fn confirm_password(&self) -> (r: String)
        ensures
            r@ == match self.language {
                Language::English => "Confirm password"@,
                Language::Russian => "Подтвердите пароль"@,
            },
    {
        match self.language {
            Language::English => "Confirm password".to_string(),
            Language::Russian => "Подтвердите пароль".to_string(),
        }
    }

    pub fn passwords_do_not_match(&self) -> (r: String)
        ensures
            r@ == match self.language {
                Language::English => "Passwords do not match"@,
                Language::Russian => "Пароли не совпадают"@,
            },
    {
        match self.language {
            Language::English => "Passwords do not match".to_string(),
            Language::Russian => "Пароли не совпадают".to_string(),
        }
    }
}

} // verus!
